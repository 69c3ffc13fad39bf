//! The application core: one state, one entry point.
//!
//! Every message goes through [`App::update`], one at a time. The step never
//! blocks and never touches the disk or the network: it changes the state and
//! hands back the tasks to carry out, in order.

use crate::archive::lists;
use crate::archive::pack;
use crate::archive::spec_unpack;
use crate::archive::zip_listing;
use crate::cfg::Cfg;
use crate::champion::get_champion_name_from_id;
use crate::champion::spec_name_from_id;
use crate::config::Config;
use crate::error::Error;
use crate::fs::op_models;
use crate::fs::FileOp;
use crate::fs::FileOpModel;
use crate::game_settings::GameSettings;
use crate::game_settings::GameSettingsModel;
use crate::game_settings::Probe;
use crate::message::ArchiveModel;
use crate::message::Export;
use crate::message::Located;
use crate::message::LocatedModel;
use crate::message::Message;
use crate::message::Swap;
use crate::message::SwapModel;
use crate::message::MessageModel;
use crate::paste::fetch_url;
use crate::paste::spec_fetch_url;
use crate::profile::collides;
use crate::profile::fresh;
use crate::profile::lemma_binding_reads_back;
use crate::profile::lemma_first_free;
use crate::profile::profile_models;
use crate::profile::spec_binding;
use crate::profile::spec_export_entries;
use crate::profile::spec_exported;
use crate::profile::spec_from_archive;
use crate::profile::spec_from_string;
use crate::profile::spec_gen_name;
use crate::profile::spec_save_settings;
use crate::profile::spec_shown;
use crate::profile::spec_snapshot;
use crate::profile::spec_swap;
use crate::profile::taken;
use crate::profile::Profile;
use crate::profile::ProfileModel;
use crate::task::file_tasks;
use crate::task::task_models;
use crate::task::Task;
use crate::task::TaskModel;
use crate::text::decimal;
use crate::text::spec_decimal;
use crate::text::spec_join;
use crate::text::str_eq;
use crate::websocket::spec_step;
use crate::websocket::Action;
use crate::websocket::Event;
use crate::websocket::Phase;
use crate::websocket::SignalModel;
use vstd::prelude::*;
use vstd::utf8::encode_utf8;

verus! {

/// The whole state of the application.
#[derive(Debug)]
pub struct App {
    config: Config,
    cfg: Option<GameSettings>,
    readonly: bool,
    error: Option<Error>,
    profiles: Vec<Profile>,
    success: Option<String>,
    champion_id: Option<u32>,
    connected: bool,
    retry_in: Option<u32>,
    link: String,
    root: String,
}

/// An [`App`] as a mathematical value.
pub struct AppModel {
    /// The configured install directory.
    pub config: Option<Seq<char>>,
    /// The active settings files, where the install directory is valid.
    pub cfg: Option<GameSettingsModel>,
    /// The read-only lock as the user set it.
    pub readonly: bool,
    /// The last error, until the next user action.
    pub error: Option<Error>,
    /// The stored profiles.
    pub profiles: Seq<ProfileModel>,
    /// The last success message, until the next user action.
    pub success: Option<Seq<char>>,
    /// The champion that the client last reported as selected.
    pub champion_id: Option<u32>,
    /// Whether the watcher's subscription stands.
    pub connected: bool,
    /// The seconds to the next connection attempt, while counting down.
    pub retry_in: Option<u32>,
    /// The content of the import field.
    pub link: Seq<char>,
    /// The directory that holds the stored profiles.
    pub root: Seq<char>,
}

impl View for App {
    type V = AppModel;

    closed spec fn view(&self) -> AppModel {
        AppModel {
            config: self.config@,
            cfg: match self.cfg {
                Some(files) => Some(files@),
                None => None,
            },
            readonly: self.readonly,
            error: self.error,
            profiles: profile_models(self.profiles@),
            success: match self.success {
                Some(text) => Some(text@),
                None => None,
            },
            champion_id: self.champion_id,
            connected: self.connected,
            retry_in: self.retry_in,
            link: self.link@,
            root: self.root@,
        }
    }
}

/// The position of the first profile at or after `from` that carries `name`.
pub open spec fn index_of(profiles: Seq<ProfileModel>, name: Seq<char>, from: int) -> Option<int>
    decreases profiles.len() - from,
{
    if from < 0 || from >= profiles.len() {
        None
    } else if profiles[from].name == name {
        Some(from)
    } else {
        index_of(profiles, name, from + 1)
    }
}

/// The position of the first profile that carries `name`.
pub open spec fn spec_position(profiles: Seq<ProfileModel>, name: Seq<char>) -> Option<int> {
    index_of(profiles, name, 0)
}

/// The position of the first profile at or after `from` that is bound to
/// `champion`.
pub open spec fn bound_from(profiles: Seq<ProfileModel>, champion: u32, from: int) -> Option<int>
    decreases profiles.len() - from,
{
    if from < 0 || from >= profiles.len() {
        None
    } else if profiles[from].champion == Some(champion) {
        Some(from)
    } else {
        bound_from(profiles, champion, from + 1)
    }
}

/// The profile to swap in for a selected champion: the first one bound to
/// it, else the first default profile.
pub open spec fn spec_resolve(profiles: Seq<ProfileModel>, id: u32) -> Option<int> {
    match bound_from(profiles, id, 0) {
        Some(at) => Some(at),
        None => bound_from(profiles, 0, 0),
    }
}

/// Whether the option is already shown by a profile other than `name`.
/// `Disabled` is never taken.
pub open spec fn option_taken(profiles: Seq<ProfileModel>, name: Seq<char>, option: Seq<char>) -> bool {
    &&& option != "Disabled"@
    &&& exists|i: int|
        0 <= i < profiles.len() && spec_shown((#[trigger] profiles[i]).champion) == Some(option)
            && profiles[i].name != name
}

/// The state with both message slots cleared.
pub open spec fn cleared(state: AppModel) -> AppModel {
    AppModel { error: None, success: None, ..state }
}

/// The install directory was picked. Where both settings files were seen
/// in its `Config` directory they become the active files, the lock is taken
/// as found, and the directory is saved as configured; else there are no
/// active files and the choice counts as wrong. A closed picker is an error
/// of its own.
pub open spec fn spec_set_location(state: AppModel, found: Result<LocatedModel, Error>) -> (
    AppModel,
    Seq<TaskModel>,
) {
    match found {
        Ok(located) => if located.seen.game && located.seen.settings {
            (
                AppModel {
                    cfg: Some(GameSettings::at(spec_join(located.path, "Config"@))),
                    readonly: located.seen.readonly,
                    error: None,
                    config: Some(located.path),
                    ..state
                },
                seq![TaskModel::SaveConfig { path: Some(located.path) }],
            )
        } else {
            (AppModel { cfg: None, error: Some(Error::WrongPath), ..state }, seq![])
        },
        Err(error) => (AppModel { error: Some(error), ..state }, seq![]),
    }
}

/// The lock was switched: it is remembered, and set on both active files
/// where there are any.
pub open spec fn spec_set_readonly(state: AppModel, value: bool) -> (AppModel, Seq<TaskModel>) {
    (
        AppModel { readonly: value, ..state },
        match state.cfg {
            Some(files) => file_tasks(GameSettings::spec_set_readonly(files, value)),
            None => seq![],
        },
    )
}

/// A profile is created from the active files, under the first free
/// generated name. Without active files or without a free name nothing
/// happens.
pub open spec fn spec_add_profile(state: AppModel) -> (AppModel, Seq<TaskModel>) {
    match (state.cfg, spec_gen_name(state.profiles)) {
        (Some(files), Some(name)) => (
            AppModel { profiles: state.profiles.push(fresh(name)), ..state },
            file_tasks(spec_snapshot(files, spec_join(state.root, name))),
        ),
        _ => (state, seq![]),
    }
}

/// The named profile is deleted: its directory is removed and it leaves
/// the list in the same step.
pub open spec fn spec_remove_profile(state: AppModel, name: Seq<char>) -> (
    AppModel,
    Seq<TaskModel>,
) {
    match spec_position(state.profiles, name) {
        Some(at) => (
            AppModel { profiles: state.profiles.remove(at), ..state },
            seq![TaskModel::File(FileOpModel::RemoveDirAll { path: spec_join(state.root, name) })],
        ),
        None => (state, seq![]),
    }
}

/// The success message after a profile was put to use.
pub open spec fn spec_using(name: Seq<char>) -> Seq<char> {
    "Using \""@ + name + "\""@
}

/// The profile is put to use by hand: a swap is asked for that puts its
/// files in place and then applies the lock as the user has it set. Success
/// is reported only when the swap has ended well.
pub open spec fn spec_use_profile(state: AppModel, profile: ProfileModel) -> (
    AppModel,
    Seq<TaskModel>,
) {
    match state.cfg {
        Some(files) => (
            state,
            seq![
                TaskModel::Swap {
                    swap: SwapModel { profile: profile.name, manual: true },
                    ops: spec_swap(spec_join(state.root, profile.name), files)
                        + GameSettings::spec_set_readonly(files, state.readonly),
                },
            ],
        ),
        None => (state, seq![]),
    }
}

/// A swap has ended. A swap that failed is an error shown to the user,
/// whoever asked for it; one that the user asked for by hand and that went
/// through is reported as a success.
pub open spec fn spec_swapped(state: AppModel, swap: SwapModel, done: bool) -> (
    AppModel,
    Seq<TaskModel>,
) {
    if !done {
        (AppModel { error: Some(Error::Swap), ..state }, seq![])
    } else if swap.manual {
        (AppModel { success: Some(spec_using(swap.profile)), ..state }, seq![])
    } else {
        (state, seq![])
    }
}

/// The named profile's name is being edited from now on.
pub open spec fn spec_edit(state: AppModel, name: Seq<char>) -> (AppModel, Seq<TaskModel>) {
    match spec_position(state.profiles, name) {
        Some(at) => (
            AppModel {
                profiles: state.profiles.update(
                    at,
                    ProfileModel {
                        editing: true,
                        edit_name: state.profiles[at].name,
                        ..state.profiles[at]
                    },
                ),
                ..state
            },
            seq![],
        ),
        None => (state, seq![]),
    }
}

/// The success message after a rename.
pub open spec fn spec_renamed(name: Seq<char>) -> Seq<char> {
    "Changed name to "@ + name
}

/// The named profile is renamed to what its edit buffer holds, unless
/// another profile carries that name: then the step fails with name-taken
/// and changes nothing else.
pub open spec fn spec_confirm(state: AppModel, name: Seq<char>) -> (AppModel, Seq<TaskModel>) {
    match spec_position(state.profiles, name) {
        Some(at) => {
            let me = state.profiles[at];
            if collides(me, state.profiles.remove(at)) {
                (AppModel { error: Some(Error::NameTaken), ..state }, seq![])
            } else {
                (
                    AppModel {
                        profiles: state.profiles.update(
                            at,
                            ProfileModel { name: me.edit_name, editing: false, ..me },
                        ),
                        success: Some(spec_renamed(me.edit_name)),
                        error: None,
                        ..state
                    },
                    seq![
                        TaskModel::File(
                            FileOpModel::Rename {
                                from: spec_join(state.root, me.name),
                                to: spec_join(state.root, me.edit_name),
                            },
                        ),
                    ],
                )
            }
        },
        None => (state, seq![]),
    }
}

/// Editing the named profile's name is given up.
pub open spec fn spec_reset(state: AppModel, name: Seq<char>) -> (AppModel, Seq<TaskModel>) {
    match spec_position(state.profiles, name) {
        Some(at) => (
            AppModel {
                profiles: state.profiles.update(
                    at,
                    ProfileModel { editing: false, ..state.profiles[at] },
                ),
                ..state
            },
            seq![],
        ),
        None => (state, seq![]),
    }
}

/// The edit buffer of the named profile takes what was typed.
pub open spec fn spec_on_change(state: AppModel, name: Seq<char>, typed: Seq<char>) -> (
    AppModel,
    Seq<TaskModel>,
) {
    match spec_position(state.profiles, name) {
        Some(at) => (
            AppModel {
                profiles: state.profiles.update(
                    at,
                    ProfileModel { edit_name: typed, ..state.profiles[at] },
                ),
                ..state
            },
            seq![],
        ),
        None => (state, seq![]),
    }
}

/// What follows a confirmed export, given what packing the archive produced.
pub open spec fn spec_finish_export(
    state: AppModel,
    name: Seq<char>,
    dir: Seq<char>,
    packed: Option<Seq<u8>>,
) -> (AppModel, Seq<TaskModel>) {
    match spec_exported(name, dir, packed) {
        Ok((_, ops)) => (
            AppModel { success: Some("Exported profile"@), ..state },
            file_tasks(ops),
        ),
        Err(_) => (AppModel { error: Some(Error::ZipExport), ..state }, seq![]),
    }
}

/// An archive was picked. It is imported as a new profile, or the import
/// has failed; a closed picker is an error of its own.
pub open spec fn spec_set_import(state: AppModel, picked: Result<ArchiveModel, Error>) -> (
    AppModel,
    Seq<TaskModel>,
) {
    match picked {
        Ok(archive) => match spec_from_archive(
            archive.stem,
            spec_unpack(zip_listing(archive.bytes)),
            state.root,
            state.profiles,
        ) {
            Ok((profile, ops)) => (
                AppModel { profiles: state.profiles.push(profile), ..state },
                file_tasks(ops),
            ),
            Err(_) => (AppModel { error: Some(Error::ZipImport), ..state }, seq![]),
        },
        Err(error) => (AppModel { error: Some(error), ..state }, seq![]),
    }
}

/// What a report of the watcher amounts to. A selected champion with an id
/// above zero is remembered and resolved to a profile, whose files are
/// swapped in where there are active files; a reported zero only forgets the
/// selection.
pub open spec fn spec_websocket(state: AppModel, event: Event) -> (AppModel, Seq<TaskModel>) {
    match event {
        Event::Selected(id) => if id > 0 {
            (
                AppModel { champion_id: Some(id), ..state },
                match (spec_resolve(state.profiles, id), state.cfg) {
                    (Some(at), Some(files)) => seq![
                        TaskModel::Swap {
                            swap: SwapModel { profile: state.profiles[at].name, manual: false },
                            ops: spec_swap(
                                spec_join(state.root, state.profiles[at].name),
                                files,
                            ),
                        },
                    ],
                    _ => seq![],
                },
            )
        } else {
            (AppModel { champion_id: None, ..state }, seq![])
        },
        Event::Connected => (AppModel { connected: true, retry_in: None, ..state }, seq![]),
        Event::Disconnected => (AppModel { connected: false, retry_in: None, ..state }, seq![]),
        Event::Retrying(left) => (AppModel { retry_in: Some(left), ..state }, seq![]),
    }
}

/// A binding was picked for the named profile. An option that another
/// profile already shows is refused, `Disabled` excepted; else the profile is
/// bound as the option says and its sidecar is saved.
pub open spec fn spec_pick_list_change(state: AppModel, name: Seq<char>, option: Seq<char>) -> (
    AppModel,
    Seq<TaskModel>,
) {
    if option_taken(state.profiles, name, option) {
        (AppModel { error: Some(Error::ChampionTaken), ..state }, seq![])
    } else {
        match spec_position(state.profiles, name) {
            Some(at) => {
                let bound = ProfileModel {
                    champion: spec_binding(option),
                    ..state.profiles[at]
                };
                (
                    AppModel { profiles: state.profiles.update(at, bound), ..state },
                    seq![spec_save_settings(bound, state.root)],
                )
            },
            None => (state, seq![]),
        }
    }
}

/// The paste service answered with a link: the named profile records it
/// and its sidecar is saved.
pub open spec fn spec_post_link(state: AppModel, link: Seq<char>, name: Seq<char>) -> (
    AppModel,
    Seq<TaskModel>,
) {
    match spec_position(state.profiles, name) {
        Some(at) => {
            let shared = ProfileModel { last_link: link, ..state.profiles[at] };
            (
                AppModel { profiles: state.profiles.update(at, shared), ..state },
                seq![spec_save_settings(shared, state.root)],
            )
        },
        None => (state, seq![]),
    }
}

/// A shared blob arrived. It is imported as a new profile, or the import
/// has failed.
pub open spec fn spec_add_from_string(state: AppModel, content: Seq<char>) -> (
    AppModel,
    Seq<TaskModel>,
) {
    match spec_from_string(encode_utf8(content), state.root, state.profiles) {
        Ok((profile, ops)) => (
            AppModel { profiles: state.profiles.push(profile), ..state },
            file_tasks(ops),
        ),
        Err(error) => (AppModel { error: Some(error), ..state }, seq![]),
    }
}

/// One step of the application: the next state and the tasks to carry out,
/// given the state and the message. Both message slots are cleared first,
/// except by a countdown report, which must not hide a pending error.
/// `packed` is what packing the archive produced; it matters to a confirmed
/// export only.
pub open spec fn spec_update(state: AppModel, message: MessageModel, packed: Option<Seq<u8>>) -> (
    AppModel,
    Seq<TaskModel>,
) {
    let state = match message {
        MessageModel::WebsocketEvent(Event::Retrying(_)) => state,
        _ => cleared(state),
    };
    match message {
        MessageModel::FindLocation => (state, seq![TaskModel::FindLocation]),
        MessageModel::SetLocation(found) => spec_set_location(state, found),
        MessageModel::SetReadonly(value) => spec_set_readonly(state, value),
        MessageModel::AddProfile => spec_add_profile(state),
        MessageModel::RemoveProfile(name) => spec_remove_profile(state, name),
        MessageModel::UseProfile(profile) => spec_use_profile(state, profile),
        MessageModel::Edit(name) => spec_edit(state, name),
        MessageModel::Confirm(name) => spec_confirm(state, name),
        MessageModel::Reset(name) => spec_reset(state, name),
        MessageModel::OnChange(name, typed) => spec_on_change(state, name, typed),
        MessageModel::Export(profile) => (state, seq![TaskModel::PickExport(profile)]),
        MessageModel::SetExport(Ok(export)) => spec_finish_export(
            state,
            export.profile.name,
            export.dir,
            packed,
        ),
        MessageModel::SetExport(Err(error)) => (AppModel { error: Some(error), ..state }, seq![]),
        MessageModel::Import => (state, seq![TaskModel::PickImport]),
        MessageModel::SetImport(picked) => spec_set_import(state, picked),
        MessageModel::PickListChange(name, option) => spec_pick_list_change(state, name, option),
        MessageModel::CopyLink(link) => (
            AppModel { success: Some("Copied link!"@), ..state },
            seq![TaskModel::CopyToClipboard(link)],
        ),
        MessageModel::GenerateLink(content, name) => (
            AppModel { success: Some("Generated link!"@), ..state },
            seq![TaskModel::Post { content, profile: name }],
        ),
        MessageModel::PostLink(link, name) => spec_post_link(state, link, name),
        MessageModel::PostLinkError(_) => (state, seq![]),
        MessageModel::ChangeLink(link) => (AppModel { link, ..state }, seq![]),
        MessageModel::FetchLink(link) => (
            state,
            seq![TaskModel::Fetch { url: spec_fetch_url(link) }],
        ),
        MessageModel::AddProfileFromString(content) => spec_add_from_string(state, content),
        MessageModel::FetchError(error) => (AppModel { error: Some(error), ..state }, seq![]),
        MessageModel::WebsocketEvent(event) => spec_websocket(state, event),
        MessageModel::Swapped(swap, done) => spec_swapped(state, swap, done),
    }
}

/// Whether `packed` can be what packing produced for the message: for a
/// confirmed export, an archive that lists exactly the two settings files.
pub open spec fn packed_for(message: MessageModel, packed: Option<Seq<u8>>) -> bool {
    match (message, packed) {
        (MessageModel::SetExport(Ok(export)), Some(bytes)) => lists(
            zip_listing(bytes),
            spec_export_entries(export.game, export.settings),
        ),
        _ => true,
    }
}

/// Whether the message is a confirmed export, the one message whose outcome
/// the archive library has a say in.
pub open spec fn is_confirmed_export(message: MessageModel) -> bool {
    message matches MessageModel::SetExport(Ok(_))
}

/// What the status line says.
pub open spec fn spec_connection_text(state: AppModel) -> Seq<char> {
    if state.connected {
        match state.champion_id {
            Some(id) => match spec_name_from_id(id) {
                Some(name) => "Selected champion: "@ + name,
                None => "Connected."@,
            },
            None => "Connected."@,
        }
    } else {
        match state.retry_in {
            Some(left) => "Disconnected. Retrying in "@ + spec_decimal(left as nat)
                + " seconds..."@,
            None => "Disconnected."@,
        }
    }
}

/// Where a found position lies, and what it means.
pub proof fn lemma_index_of(profiles: Seq<ProfileModel>, name: Seq<char>, from: int)
    requires
        0 <= from,
    ensures
        match index_of(profiles, name, from) {
            Some(at) => from <= at < profiles.len() && profiles[at].name == name,
            None => forall|i: int| from <= i < profiles.len() ==> profiles[i].name != name,
        },
    decreases profiles.len() - from,
{
    if from < profiles.len() && profiles[from].name != name {
        lemma_index_of(profiles, name, from + 1);
    }
}

/// Where a found binding lies, and what it means.
pub proof fn lemma_bound_from(profiles: Seq<ProfileModel>, champion: u32, from: int)
    requires
        0 <= from,
    ensures
        match bound_from(profiles, champion, from) {
            Some(at) => from <= at < profiles.len() && profiles[at].champion == Some(champion),
            None => forall|i: int|
                from <= i < profiles.len() ==> profiles[i].champion != Some(champion),
        },
    decreases profiles.len() - from,
{
    if from < profiles.len() && profiles[from].champion != Some(champion) {
        lemma_bound_from(profiles, champion, from + 1);
    }
}

fn concat(first: &str, second: &str) -> (text: String)
    ensures
        text@ == first@ + second@,
{
    let mut text = String::from_str(first);
    text.append(second);
    text
}

fn as_cfg(files: &GameSettings) -> (cfg: Cfg)
    ensures
        cfg@ == files@,
{
    Cfg { game: files.game.clone(), settings: files.settings.clone() }
}

/// Adds the tasks that carry out `ops`, in order.
fn push_ops(tasks: &mut Vec<Task>, ops: Vec<FileOp>)
    ensures
        task_models(final(tasks)@) == task_models(old(tasks)@) + file_tasks(op_models(ops@)),
{
    let ghost all = op_models(ops@);
    let ghost start = task_models(tasks@);
    let ghost mut done: int = 0;
    let mut ops = ops;
    while ops.len() > 0
        invariant
            0 <= done <= all.len(),
            op_models(ops@) == all.skip(done),
            task_models(tasks@) == start + file_tasks(all.take(done)),
        decreases ops@.len(),
    {
        let ghost before = task_models(tasks@);
        let ghost left = op_models(ops@);
        let op = ops.remove(0);
        assert(op@ == left[0]);
        assert(op_models(ops@) =~= left.skip(1));
        tasks.push(Task::File(op));
        proof {
            assert(task_models(tasks@) =~= before.push(TaskModel::File(all[done])));
            done = done + 1;
        }
    }
}

/// The tasks that carry out `ops`, in order.
fn tasks_of(ops: Vec<FileOp>) -> (tasks: Vec<Task>)
    ensures
        task_models(tasks@) == file_tasks(op_models(ops@)),
{
    let mut tasks: Vec<Task> = Vec::new();
    push_ops(&mut tasks, ops);
    tasks
}

fn one(task: Task) -> (tasks: Vec<Task>)
    ensures
        task_models(tasks@) == seq![task@],
{
    let mut tasks: Vec<Task> = Vec::new();
    tasks.push(task);
    tasks
}

fn none() -> (tasks: Vec<Task>)
    ensures
        task_models(tasks@) == Seq::<TaskModel>::empty(),
{
    Vec::new()
}

/// The position of the first profile bound to `champion`.
fn bound_to(profiles: &Vec<Profile>, champion: u32) -> (found: Option<usize>)
    ensures
        match found {
            Some(at) => bound_from(profile_models(profiles@), champion, 0) == Some(at as int)
                && at < profiles@.len(),
            None => bound_from(profile_models(profiles@), champion, 0) is None,
        },
{
    let mut i: usize = 0;
    while i < profiles.len()
        invariant
            i <= profiles@.len(),
            bound_from(profile_models(profiles@), champion, 0) == bound_from(
                profile_models(profiles@),
                champion,
                i as int,
            ),
        decreases profiles@.len() - i,
    {
        match profiles[i].champion() {
            Some(bound) => {
                if *bound == champion {
                    return Some(i);
                }
            },
            None => {},
        }
        i += 1;
    }
    None
}

/// Picks the profile to swap in when the client reports champion `id` as
/// selected: the first profile bound to `id`, else the first default profile.
pub fn resolve(profiles: &Vec<Profile>, id: u32) -> (found: Option<usize>)
    ensures
        match found {
            Some(at) => spec_resolve(profile_models(profiles@), id) == Some(at as int) && at
                < profiles@.len(),
            None => spec_resolve(profile_models(profiles@), id) is None,
        },
{
    match bound_to(profiles, id) {
        Some(at) => Some(at),
        None => bound_to(profiles, 0),
    }
}

/// The state to start with.
pub open spec fn spec_start(
    config: Option<Seq<char>>,
    seen: Probe,
    profiles: Seq<ProfileModel>,
    root: Seq<char>,
) -> AppModel {
    let valid = config is Some && seen.game && seen.settings;
    AppModel {
        config,
        cfg: if valid {
            Some(GameSettings::at(spec_join(config->0, "Config"@)))
        } else {
            None
        },
        readonly: valid && seen.readonly,
        error: if valid {
            None
        } else if config is Some {
            Some(Error::WrongPath)
        } else {
            Some(Error::MissingPath)
        },
        profiles,
        success: None,
        champion_id: None,
        connected: false,
        retry_in: None,
        link: Seq::empty(),
        root,
    }
}

/// The state of an application that knows nothing yet.
pub open spec fn spec_blank() -> AppModel {
    AppModel {
        config: None,
        cfg: None,
        readonly: false,
        error: None,
        profiles: Seq::empty(),
        success: None,
        champion_id: None,
        connected: false,
        retry_in: None,
        link: Seq::empty(),
        root: Seq::empty(),
    }
}

impl Default for App {
    /// An application that knows nothing yet: no install directory, no
    /// profiles, no messages, not connected.
    fn default() -> (app: App)
        ensures
            app@ == spec_blank(),
    {
        let profiles: Vec<Profile> = Vec::new();
        assert(profile_models(profiles@) =~= Seq::<ProfileModel>::empty());
        App {
            config: Config::default(),
            cfg: None,
            readonly: false,
            error: None,
            profiles,
            success: None,
            champion_id: None,
            connected: false,
            retry_in: None,
            link: String::new(),
            root: String::new(),
        }
    }
}

fn take(profiles: &mut Vec<Profile>, at: usize) -> (profile: Profile)
    requires
        at < old(profiles)@.len(),
    ensures
        profile@ == profile_models(old(profiles)@)[at as int],
        profile_models(final(profiles)@) == profile_models(old(profiles)@).remove(at as int),
        final(profiles)@.len() == old(profiles)@.len() - 1,
{
    let profile = profiles.remove(at);
    profile
}

fn put(profiles: &mut Vec<Profile>, at: usize, profile: Profile)
    requires
        at <= old(profiles)@.len(),
    ensures
        profile_models(final(profiles)@) == profile_models(old(profiles)@).insert(
            at as int,
            profile@,
        ),
        final(profiles)@.len() == old(profiles)@.len() + 1,
{
    profiles.insert(at, profile);
}

fn append_profile(profiles: &mut Vec<Profile>, profile: Profile)
    ensures
        profile_models(final(profiles)@) == profile_models(old(profiles)@).push(profile@),
{
    profiles.push(profile);
}

/// Putting a changed profile back where one was taken out changes that
/// position and nothing else.
proof fn lemma_put_back(profiles: Seq<ProfileModel>, at: int, changed: ProfileModel)
    requires
        0 <= at < profiles.len(),
    ensures
        profiles.remove(at).insert(at, changed) == profiles.update(at, changed),
{
}

impl App {
    /// The state to start with: the loaded configuration and profiles, and
    /// the active settings files where the configured install directory
    /// holds them. `seen` is what was found in its `Config` directory.
    pub fn new(config: Config, seen: Probe, profiles: Vec<Profile>, root: String) -> (app: App)
        ensures
            app@ == spec_start(config@, seen, profile_models(profiles@), root@),
    {
        let mut cfg = None;
        let mut readonly = false;
        let mut error = None;
        match GameSettings::from_config(&config, seen) {
            Ok(files) => {
                readonly = seen.readonly;
                cfg = Some(files);
            },
            Err(e) => {
                error = Some(e);
            },
        }
        App {
            config,
            cfg,
            readonly,
            error,
            profiles,
            success: None,
            champion_id: None,
            connected: false,
            retry_in: None,
            link: String::new(),
            root,
        }
    }

    /// The configuration.
    pub fn config(&self) -> (config: &Config)
        ensures
            config@ == self@.config,
    {
        &self.config
    }

    /// The active settings files, where the install directory is valid.
    pub fn cfg(&self) -> (cfg: &Option<GameSettings>)
        ensures
            match *cfg {
                Some(files) => self@.cfg == Some(files@),
                None => self@.cfg is None,
            },
    {
        &self.cfg
    }

    /// The read-only lock as the user set it.
    pub fn readonly(&self) -> (readonly: bool)
        ensures
            readonly == self@.readonly,
    {
        self.readonly
    }

    /// The last error, until the next user action.
    pub fn error(&self) -> (error: Option<Error>)
        ensures
            error == self@.error,
    {
        self.error
    }

    /// The stored profiles.
    pub fn profiles(&self) -> (profiles: &Vec<Profile>)
        ensures
            profile_models(profiles@) == self@.profiles,
    {
        &self.profiles
    }

    /// The last success message, until the next user action.
    pub fn success(&self) -> (success: &Option<String>)
        ensures
            match *success {
                Some(text) => self@.success == Some(text@),
                None => self@.success is None,
            },
    {
        &self.success
    }

    /// The champion that the client last reported as selected.
    pub fn champion_id(&self) -> (id: Option<u32>)
        ensures
            id == self@.champion_id,
    {
        self.champion_id
    }

    /// Whether the watcher's subscription stands.
    pub fn connected(&self) -> (connected: bool)
        ensures
            connected == self@.connected,
    {
        self.connected
    }

    /// The seconds to the next connection attempt, while counting down.
    pub fn retry_in(&self) -> (left: Option<u32>)
        ensures
            left == self@.retry_in,
    {
        self.retry_in
    }

    /// The content of the import field.
    pub fn link(&self) -> (link: &String)
        ensures
            link@ == self@.link,
    {
        &self.link
    }

    /// The directory that holds the stored profiles.
    pub fn root(&self) -> (root: &String)
        ensures
            root@ == self@.root,
    {
        &self.root
    }

    /// What the status line says: the connection, the selected champion
    /// where the table knows it, the countdown while retrying.
    pub fn connection_text(&self) -> (text: String)
        ensures
            text@ == spec_connection_text(self@),
    {
        if self.connected {
            match self.champion_id {
                Some(id) => match get_champion_name_from_id(id) {
                    Some(name) => concat("Selected champion: ", name),
                    None => String::from_str("Connected."),
                },
                None => String::from_str("Connected."),
            }
        } else {
            match self.retry_in {
                Some(left) => {
                    let mut text = concat("Disconnected. Retrying in ", decimal(left).as_str());
                    text.append(" seconds...");
                    text
                },
                None => String::from_str("Disconnected."),
            }
        }
    }

    /// The position of the first profile that carries `name`.
    pub fn get_profile_from_name(&self, name: &str) -> (found: Option<usize>)
        ensures
            match found {
                Some(at) => spec_position(self@.profiles, name@) == Some(at as int) && at
                    < self@.profiles.len(),
                None => spec_position(self@.profiles, name@) is None,
            },
    {
        let mut i: usize = 0;
        while i < self.profiles.len()
            invariant
                i <= self.profiles@.len(),
                index_of(profile_models(self.profiles@), name@, 0) == index_of(
                    profile_models(self.profiles@),
                    name@,
                    i as int,
                ),
            decreases self.profiles@.len() - i,
        {
            if str_eq(self.profiles[i].name().as_str(), name) {
                return Some(i);
            }
            i += 1;
        }
        None
    }

    /// Takes the picked install directory: where its `Config` directory
    /// holds both settings files they become the active files, with the lock
    /// as found; else there are no active files and the error says so.
    pub fn set_cfg(&mut self, location: &Located) -> (error: Option<Error>)
        ensures
            error == final(self)@.error,
            final(self)@ == if location@.seen.game && location@.seen.settings {
                AppModel {
                    cfg: Some(GameSettings::at(spec_join(location@.path, "Config"@))),
                    readonly: location@.seen.readonly,
                    error: None,
                    ..old(self)@
                }
            } else {
                AppModel { cfg: None, error: Some(Error::WrongPath), ..old(self)@ }
            },
    {
        let dir = Config::game_settings_path(location.path.as_str());
        match GameSettings::from_path(dir.as_str(), location.seen) {
            Ok(files) => {
                self.readonly = location.seen.readonly;
                self.cfg = Some(files);
                self.error = None;
            },
            Err(e) => {
                self.cfg = None;
                self.error = Some(e);
            },
        }
        self.error
    }

    fn on_set_location(&mut self, found: Result<Located, Error>) -> (tasks: Vec<Task>)
        ensures
            (final(self)@, task_models(tasks@)) == spec_set_location(
                old(self)@,
                match found {
                    Ok(located) => Ok(located@),
                    Err(error) => Err(error),
                },
            ),
    {
        match found {
            Ok(location) => {
                if self.set_cfg(&location).is_none() {
                    let task = self.config.set_path(Some(location.path));
                    one(task)
                } else {
                    none()
                }
            },
            Err(error) => {
                self.error = Some(error);
                none()
            },
        }
    }

    fn on_set_readonly(&mut self, value: bool) -> (tasks: Vec<Task>)
        ensures
            (final(self)@, task_models(tasks@)) == spec_set_readonly(old(self)@, value),
    {
        self.readonly = value;
        match &self.cfg {
            Some(files) => tasks_of(files.set_readonly(value)),
            None => none(),
        }
    }

    fn on_add_profile(&mut self) -> (tasks: Vec<Task>)
        ensures
            (final(self)@, task_models(tasks@)) == spec_add_profile(old(self)@),
    {
        match &self.cfg {
            Some(files) => {
                let cfg = as_cfg(files);
                match Profile::new(&cfg, self.root.as_str(), &self.profiles) {
                    Some((profile, ops)) => {
                        append_profile(&mut self.profiles, profile);
                        tasks_of(ops)
                    },
                    None => none(),
                }
            },
            None => none(),
        }
    }

    fn on_remove_profile(&mut self, name: String) -> (tasks: Vec<Task>)
        ensures
            (final(self)@, task_models(tasks@)) == spec_remove_profile(old(self)@, name@),
    {
        match self.get_profile_from_name(name.as_str()) {
            Some(at) => {
                proof {
                    lemma_index_of(self@.profiles, name@, 0);
                }
                let profile = take(&mut self.profiles, at);
                let ops = profile.delete(self.root.as_str());
                tasks_of(ops)
            },
            None => none(),
        }
    }

    fn on_use_profile(&mut self, profile: Profile) -> (tasks: Vec<Task>)
        ensures
            (final(self)@, task_models(tasks@)) == spec_use_profile(old(self)@, profile@),
    {
        match &self.cfg {
            Some(files) => {
                let cfg = as_cfg(files);
                let mut ops = profile.copy_files(self.root.as_str(), &cfg);
                let mut lock = files.set_readonly(self.readonly);
                let ghost swap = op_models(ops@);
                let ghost locking = op_models(lock@);
                ops.append(&mut lock);
                assert(op_models(ops@) =~= swap + locking);
                one(Task::Swap { swap: Swap { profile: profile.name().clone(), manual: true }, ops })
            },
            None => none(),
        }
    }

    fn on_swapped(&mut self, swap: Swap, done: bool) -> (tasks: Vec<Task>)
        ensures
            (final(self)@, task_models(tasks@)) == spec_swapped(old(self)@, swap@, done),
    {
        if !done {
            self.error = Some(Error::Swap);
        } else if swap.manual {
            let mut text = concat("Using \"", swap.profile.as_str());
            text.append("\"");
            self.success = Some(text);
        }
        none()
    }

    fn on_edit(&mut self, name: String) -> (tasks: Vec<Task>)
        ensures
            (final(self)@, task_models(tasks@)) == spec_edit(old(self)@, name@),
    {
        match self.get_profile_from_name(name.as_str()) {
            Some(at) => {
                let ghost before = self@.profiles;
                let mut profile = take(&mut self.profiles, at);
                profile.edit_start();
                put(&mut self.profiles, at, profile);
                proof {
                    lemma_put_back(before, at as int, profile@);
                }
                none()
            },
            None => none(),
        }
    }

    fn on_confirm(&mut self, name: String) -> (tasks: Vec<Task>)
        ensures
            (final(self)@, task_models(tasks@)) == spec_confirm(old(self)@, name@),
    {
        match self.get_profile_from_name(name.as_str()) {
            Some(at) => {
                let ghost before = self@.profiles;
                let ghost me = before[at as int];
                let mut profile = take(&mut self.profiles, at);
                let renamed = profile.edit_confirm(self.root.as_str(), &self.profiles);
                put(&mut self.profiles, at, profile);
                proof {
                    lemma_put_back(before, at as int, profile@);
                    assert(before.update(at as int, me) =~= before);
                }
                match renamed {
                    Ok(ops) => {
                        assert(profile_models(self.profiles@)[at as int]
                            == self.profiles@[at as int]@);
                        let text = concat("Changed name to ", self.profiles[at].name().as_str());
                        self.success = Some(text);
                        self.error = None;
                        tasks_of(ops)
                    },
                    Err(error) => {
                        self.error = Some(error);
                        none()
                    },
                }
            },
            None => none(),
        }
    }

    fn on_reset(&mut self, name: String) -> (tasks: Vec<Task>)
        ensures
            (final(self)@, task_models(tasks@)) == spec_reset(old(self)@, name@),
    {
        match self.get_profile_from_name(name.as_str()) {
            Some(at) => {
                let ghost before = self@.profiles;
                let mut profile = take(&mut self.profiles, at);
                profile.edit_reset();
                put(&mut self.profiles, at, profile);
                proof {
                    lemma_put_back(before, at as int, profile@);
                }
                none()
            },
            None => none(),
        }
    }

    fn on_change(&mut self, name: String, typed: String) -> (tasks: Vec<Task>)
        ensures
            (final(self)@, task_models(tasks@)) == spec_on_change(old(self)@, name@, typed@),
    {
        match self.get_profile_from_name(name.as_str()) {
            Some(at) => {
                let ghost before = self@.profiles;
                let mut profile = take(&mut self.profiles, at);
                profile.set_edit_name(typed);
                put(&mut self.profiles, at, profile);
                proof {
                    lemma_put_back(before, at as int, profile@);
                }
                none()
            },
            None => none(),
        }
    }

    /// Finishes a confirmed export, given what packing the archive produced:
    /// the archive is written and success reported, or the export has failed.
    pub fn finish_export(&mut self, profile: &Profile, dir: &str, packed: Option<Vec<u8>>) -> (tasks:
        Vec<Task>)
        ensures
            (final(self)@, task_models(tasks@)) == spec_finish_export(
                old(self)@,
                profile@.name,
                dir@,
                match packed {
                    Some(bytes) => Some(bytes@),
                    None => None,
                },
            ),
    {
        match profile.exported(dir, packed) {
            Ok((_, ops)) => {
                self.success = Some(String::from_str("Exported profile"));
                tasks_of(ops)
            },
            Err(_) => {
                self.error = Some(Error::ZipExport);
                none()
            },
        }
    }

    fn on_set_import(&mut self, stem: String, bytes: Vec<u8>) -> (tasks: Vec<Task>)
        ensures
            (final(self)@, task_models(tasks@)) == spec_set_import(
                old(self)@,
                Ok(ArchiveModel { stem: stem@, bytes: bytes@ }),
            ),
    {
        match Profile::from_zip(stem.as_str(), bytes, self.root.as_str(), &self.profiles) {
            Ok((profile, ops)) => {
                append_profile(&mut self.profiles, profile);
                tasks_of(ops)
            },
            Err(_) => {
                self.error = Some(Error::ZipImport);
                none()
            },
        }
    }

    fn on_websocket(&mut self, event: Event) -> (tasks: Vec<Task>)
        ensures
            (final(self)@, task_models(tasks@)) == spec_websocket(old(self)@, event),
    {
        match event {
            Event::Selected(id) => {
                self.champion_id = None;
                if id > 0 {
                    self.champion_id = Some(id);
                    match (resolve(&self.profiles, id), &self.cfg) {
                        (Some(at), Some(files)) => {
                            let cfg = as_cfg(files);
                            let profile = &self.profiles[at];
                            let ops = profile.copy_files(self.root.as_str(), &cfg);
                            one(
                                Task::Swap {
                                    swap: Swap { profile: profile.name().clone(), manual: false },
                                    ops,
                                },
                            )
                        },
                        _ => none(),
                    }
                } else {
                    none()
                }
            },
            Event::Connected => {
                self.connected = true;
                self.retry_in = None;
                none()
            },
            Event::Disconnected => {
                self.connected = false;
                self.retry_in = None;
                none()
            },
            Event::Retrying(left) => {
                self.retry_in = Some(left);
                none()
            },
        }
    }

    fn option_is_taken(&self, name: &str, option: &str) -> (is_taken: bool)
        ensures
            is_taken == option_taken(self@.profiles, name@, option@),
    {
        if str_eq(option, "Disabled") {
            return false;
        }
        let mut i: usize = 0;
        while i < self.profiles.len()
            invariant
                i <= self.profiles@.len(),
                option@ != "Disabled"@,
                forall|j: int|
                    0 <= j < i ==> !(spec_shown(
                        (#[trigger] profile_models(self.profiles@)[j]).champion,
                    ) == Some(option@) && profile_models(self.profiles@)[j].name != name@),
            decreases self.profiles@.len() - i,
        {
            let profile = &self.profiles[i];
            if profile.shows(option) && !str_eq(profile.name().as_str(), name) {
                assert(spec_shown(profile_models(self.profiles@)[i as int].champion) == Some(
                    option@,
                ));
                return true;
            }
            i += 1;
        }
        false
    }

    fn on_pick_list_change(&mut self, name: String, option: String) -> (tasks: Vec<Task>)
        ensures
            (final(self)@, task_models(tasks@)) == spec_pick_list_change(
                old(self)@,
                name@,
                option@,
            ),
    {
        if self.option_is_taken(name.as_str(), option.as_str()) {
            self.error = Some(Error::ChampionTaken);
            return none();
        }
        match self.get_profile_from_name(name.as_str()) {
            Some(at) => {
                let ghost before = self@.profiles;
                let mut profile = take(&mut self.profiles, at);
                let task = profile.set_selected(option.as_str(), self.root.as_str());
                put(&mut self.profiles, at, profile);
                proof {
                    lemma_put_back(before, at as int, profile@);
                }
                one(task)
            },
            None => none(),
        }
    }

    fn on_post_link(&mut self, link: String, name: String) -> (tasks: Vec<Task>)
        ensures
            (final(self)@, task_models(tasks@)) == spec_post_link(old(self)@, link@, name@),
    {
        match self.get_profile_from_name(name.as_str()) {
            Some(at) => {
                let ghost before = self@.profiles;
                let mut profile = take(&mut self.profiles, at);
                let task = profile.set_link(link, self.root.as_str());
                put(&mut self.profiles, at, profile);
                proof {
                    lemma_put_back(before, at as int, profile@);
                }
                one(task)
            },
            None => none(),
        }
    }

    fn on_add_from_string(&mut self, content: String) -> (tasks: Vec<Task>)
        ensures
            (final(self)@, task_models(tasks@)) == spec_add_from_string(old(self)@, content@),
    {
        match Profile::from_string(content.as_str(), self.root.as_str(), &self.profiles) {
            Ok((profile, ops)) => {
                append_profile(&mut self.profiles, profile);
                tasks_of(ops)
            },
            Err(error) => {
                self.error = Some(error);
                none()
            },
        }
    }

    /// Takes one step: changes the state as the message says and hands back
    /// the tasks to carry out, in order. A message that names a profile that
    /// is not there changes nothing beyond clearing the message slots.
    ///
    /// The step is a function of state and message, with one exception: on a
    /// confirmed export the two file bodies are packed by the archive library,
    /// into an archive that lists exactly the two settings files, and what
    /// follows is what [`App::finish_export`] makes of its answer.
    pub fn update(&mut self, message: Message) -> (tasks: Vec<Task>)
        ensures
            !is_confirmed_export(message@) ==> (final(self)@, task_models(tasks@)) == spec_update(
                old(self)@,
                message@,
                None,
            ),
            exists|packed: Option<Seq<u8>>|
                packed_for(message@, packed) && (final(self)@, task_models(tasks@))
                    == #[trigger] spec_update(old(self)@, message@, packed),
    {
        match message {
            Message::WebsocketEvent(Event::Retrying(_)) => {},
            _ => {
                self.error = None;
                self.success = None;
            },
        }
        let ghost given = message@;
        let tasks = match message {
            Message::FindLocation => one(Task::FindLocation),
            Message::SetLocation(found) => self.on_set_location(found),
            Message::SetReadonly(value) => self.on_set_readonly(value),
            Message::AddProfile => self.on_add_profile(),
            Message::RemoveProfile(name) => self.on_remove_profile(name),
            Message::UseProfile(profile) => self.on_use_profile(profile),
            Message::Edit(name) => self.on_edit(name),
            Message::Confirm(name) => self.on_confirm(name),
            Message::Reset(name) => self.on_reset(name),
            Message::OnChange(name, typed) => self.on_change(name, typed),
            Message::Export(profile) => one(Task::PickExport(profile)),
            Message::SetExport(Ok(export)) => {
                let Export { dir, profile, game, settings } = export;
                let entries = Profile::export_entries(game, settings);
                let packed = pack(&entries);
                let ghost answer: Option<Seq<u8>> = if packed is Some {
                    Some(packed->0@)
                } else {
                    None
                };
                let tasks = self.finish_export(&profile, dir.as_str(), packed);
                assert(packed_for(given, answer));
                assert((self@, task_models(tasks@)) == spec_update(old(self)@, given, answer));
                tasks
            },
            Message::SetExport(Err(error)) => {
                self.error = Some(error);
                none()
            },
            Message::Import => one(Task::PickImport),
            Message::SetImport(Ok(archive)) => self.on_set_import(archive.stem, archive.bytes),
            Message::SetImport(Err(error)) => {
                self.error = Some(error);
                none()
            },
            Message::PickListChange(name, option) => self.on_pick_list_change(name, option),
            Message::CopyLink(link) => {
                self.success = Some(String::from_str("Copied link!"));
                one(Task::CopyToClipboard(link))
            },
            Message::GenerateLink(content, name) => {
                self.success = Some(String::from_str("Generated link!"));
                one(Task::Post { content, profile: name })
            },
            Message::PostLink(link, name) => self.on_post_link(link, name),
            Message::PostLinkError(_) => none(),
            Message::ChangeLink(link) => {
                self.link = link;
                none()
            },
            Message::FetchLink(link) => one(Task::Fetch { url: fetch_url(link.as_str()) }),
            Message::AddProfileFromString(content) => self.on_add_from_string(content),
            Message::FetchError(error) => {
                self.error = Some(error);
                none()
            },
            Message::WebsocketEvent(event) => self.on_websocket(event),
            Message::Swapped(swap, done) => self.on_swapped(swap, done),
        };
        proof {
            if !is_confirmed_export(given) {
                assert((self@, task_models(tasks@)) == spec_update(old(self)@, given, None));
            }
        }
        tasks
    }
}

/// Whether no two profiles of the list carry the same name.
pub open spec fn names_unique(profiles: Seq<ProfileModel>) -> bool {
    forall|i: int, j: int|
        0 <= i < j < profiles.len() ==> (#[trigger] profiles[i]).name != (
        #[trigger] profiles[j]).name
}

/// Among unique names, a profile is found where it stands.
pub proof fn lemma_position_of(profiles: Seq<ProfileModel>, at: int)
    requires
        names_unique(profiles),
        0 <= at < profiles.len(),
    ensures
        spec_position(profiles, profiles[at].name) == Some(at),
{
    lemma_index_of(profiles, profiles[at].name, 0);
}

/// Switching the lock to the same value twice is switching it once: the
/// second message leaves the state as the first left it and asks for the same
/// operations, which leave the disk as it was
/// ([`crate::game_settings::lemma_lock_idempotent`]).
pub proof fn lemma_set_readonly_twice(state: AppModel, value: bool)
    ensures
        ({
            let (once, first) = spec_update(state, MessageModel::SetReadonly(value), None);
            let (twice, second) = spec_update(once, MessageModel::SetReadonly(value), None);
            &&& twice == once
            &&& second == first
            &&& first == match state.cfg {
                Some(files) => file_tasks(GameSettings::spec_set_readonly(files, value)),
                None => Seq::<TaskModel>::empty(),
            }
        }),
{
}

/// A rename cannot take another profile's name. When the profile at `x` is
/// confirmed with the name of the profile at `y` in its edit buffer, the step
/// fails with name-taken, every profile stays as it was, and no task is
/// handed out, so that nothing changes on disk either.
pub proof fn lemma_rename_collision(state: AppModel, x: int, y: int)
    requires
        names_unique(state.profiles),
        0 <= x < state.profiles.len(),
        0 <= y < state.profiles.len(),
        x != y,
        state.profiles[x].edit_name == state.profiles[y].name,
    ensures
        ({
            let (after, tasks) = spec_update(
                state,
                MessageModel::Confirm(state.profiles[x].name),
                None,
            );
            &&& after.error == Some(Error::NameTaken)
            &&& after.profiles == state.profiles
            &&& tasks == Seq::<TaskModel>::empty()
        }),
{
    let profiles = state.profiles;
    lemma_position_of(profiles, x);
    let others = profiles.remove(x);
    let there = if y < x {
        y
    } else {
        y - 1
    };
    assert(others[there].name == profiles[x].edit_name && others[there].name != profiles[x].name);
}

/// A reported zero swaps nothing: it forgets the selection and hands out no
/// task, whatever the profiles are bound to.
pub proof fn lemma_zero_swaps_nothing(state: AppModel)
    ensures
        ({
            let (after, tasks) = spec_update(
                state,
                MessageModel::WebsocketEvent(Event::Selected(0)),
                None,
            );
            &&& after.champion_id is None
            &&& after.profiles == state.profiles
            &&& tasks == Seq::<TaskModel>::empty()
        }),
{
}

/// The resolver prefers the exact binding. A profile bound to the selected
/// champion wins over every default profile; without one, the first default
/// profile is taken; without either, nothing is swapped.
pub proof fn lemma_resolve_priority(profiles: Seq<ProfileModel>, id: u32)
    ensures
        match spec_resolve(profiles, id) {
            Some(at) => {
                &&& 0 <= at < profiles.len()
                &&& profiles[at].champion == Some(id) || (profiles[at].champion == Some(0u32)
                    && forall|i: int|
                    0 <= i < profiles.len() ==> profiles[i].champion != Some(id))
            },
            None => forall|i: int|
                0 <= i < profiles.len() ==> profiles[i].champion != Some(id)
                    && profiles[i].champion != Some(0u32),
        },
{
    lemma_bound_from(profiles, id, 0);
    lemma_bound_from(profiles, 0, 0);
}

/// The countdown does not hide a pending error, and a new connection or a
/// lost one ends the countdown.
pub proof fn lemma_connection_state(state: AppModel, left: u32)
    ensures
        spec_update(state, MessageModel::WebsocketEvent(Event::Retrying(left)), None).0 == (
        AppModel { retry_in: Some(left), ..state }),
        spec_update(state, MessageModel::WebsocketEvent(Event::Connected), None).0 == (AppModel {
            connected: true,
            retry_in: None,
            ..cleared(state)
        }),
        spec_update(state, MessageModel::WebsocketEvent(Event::Disconnected), None).0 == (
        AppModel { connected: false, retry_in: None, ..cleared(state) }),
{
}

/// A profile under a free name can join without a clash.
pub proof fn lemma_push_keeps_unique(profiles: Seq<ProfileModel>, profile: ProfileModel)
    requires
        names_unique(profiles),
        !taken(profile.name, profiles),
    ensures
        names_unique(profiles.push(profile)),
{
    let after = profiles.push(profile);
    assert forall|i: int, j: int| 0 <= i < j < after.len() implies (#[trigger] after[i]).name != (
    #[trigger] after[j]).name by {
        if j < profiles.len() {
            assert(profiles[i].name != profiles[j].name);
        }
    }
}

/// Taking a profile out causes no clash.
pub proof fn lemma_remove_keeps_unique(profiles: Seq<ProfileModel>, at: int)
    requires
        names_unique(profiles),
        0 <= at < profiles.len(),
    ensures
        names_unique(profiles.remove(at)),
{
    let after = profiles.remove(at);
    assert forall|i: int, j: int| 0 <= i < j < after.len() implies (#[trigger] after[i]).name != (
    #[trigger] after[j]).name by {
        let from_i = if i < at {
            i
        } else {
            i + 1
        };
        let from_j = if j < at {
            j
        } else {
            j + 1
        };
        assert(profiles[from_i].name != profiles[from_j].name);
    }
}

/// Changing a profile causes no clash where its new name is its old one or
/// that of no other profile.
pub proof fn lemma_update_keeps_unique(
    profiles: Seq<ProfileModel>,
    at: int,
    changed: ProfileModel,
)
    requires
        names_unique(profiles),
        0 <= at < profiles.len(),
        changed.name == profiles[at].name || !taken(changed.name, profiles.remove(at)),
    ensures
        names_unique(profiles.update(at, changed)),
{
    let after = profiles.update(at, changed);
    let others = profiles.remove(at);
    assert forall|i: int, j: int| 0 <= i < j < after.len() implies (#[trigger] after[i]).name != (
    #[trigger] after[j]).name by {
        if changed.name != profiles[at].name {
            if i == at {
                assert(others[j - 1].name != changed.name);
            } else if j == at {
                assert(others[i].name != changed.name);
            }
        }
    }
}

/// Names stay unique. Whatever the message, a state whose profiles carry
/// different names is followed by one whose profiles carry different names:
/// creation and both imports pick a free name, and a rename is refused
/// where the name is taken.
pub proof fn lemma_names_stay_unique(
    state: AppModel,
    message: MessageModel,
    packed: Option<Seq<u8>>,
)
    requires
        names_unique(state.profiles),
    ensures
        names_unique(spec_update(state, message, packed).0.profiles),
{
    let profiles = state.profiles;
    lemma_first_free(profiles, 0);
    match message {
        MessageModel::AddProfile => {
            if state.cfg is Some && spec_gen_name(profiles) is Some {
                lemma_push_keeps_unique(profiles, fresh(spec_gen_name(profiles)->0));
            }
        },
        MessageModel::RemoveProfile(name) => {
            lemma_index_of(profiles, name, 0);
            if spec_position(profiles, name) is Some {
                lemma_remove_keeps_unique(profiles, spec_position(profiles, name)->0);
            }
        },
        MessageModel::Edit(name) => {
            lemma_index_of(profiles, name, 0);
            if spec_position(profiles, name) is Some {
                let at = spec_position(profiles, name)->0;
                lemma_update_keeps_unique(
                    profiles,
                    at,
                    ProfileModel { editing: true, edit_name: profiles[at].name, ..profiles[at] },
                );
            }
        },
        MessageModel::Confirm(name) => {
            lemma_index_of(profiles, name, 0);
            if spec_position(profiles, name) is Some {
                let at = spec_position(profiles, name)->0;
                let me = profiles[at];
                let others = profiles.remove(at);
                if !collides(me, others) && me.edit_name != me.name {
                    assert forall|i: int| 0 <= i < others.len() implies (
                    #[trigger] others[i]).name != me.edit_name by {
                        let from = if i < at {
                            i
                        } else {
                            i + 1
                        };
                        assert(profiles[from].name != profiles[at].name);
                    }
                }
                if !collides(me, others) {
                    lemma_update_keeps_unique(
                        profiles,
                        at,
                        ProfileModel { name: me.edit_name, editing: false, ..me },
                    );
                }
            }
        },
        MessageModel::Reset(name) => {
            lemma_index_of(profiles, name, 0);
            if spec_position(profiles, name) is Some {
                let at = spec_position(profiles, name)->0;
                lemma_update_keeps_unique(
                    profiles,
                    at,
                    ProfileModel { editing: false, ..profiles[at] },
                );
            }
        },
        MessageModel::OnChange(name, typed) => {
            lemma_index_of(profiles, name, 0);
            if spec_position(profiles, name) is Some {
                let at = spec_position(profiles, name)->0;
                lemma_update_keeps_unique(
                    profiles,
                    at,
                    ProfileModel { edit_name: typed, ..profiles[at] },
                );
            }
        },
        MessageModel::SetImport(Ok(archive)) => {
            let imported = spec_from_archive(
                archive.stem,
                spec_unpack(zip_listing(archive.bytes)),
                state.root,
                profiles,
            );
            if imported is Ok {
                lemma_push_keeps_unique(profiles, imported->Ok_0.0);
            }
        },
        MessageModel::PickListChange(name, option) => {
            lemma_index_of(profiles, name, 0);
            if spec_position(profiles, name) is Some {
                let at = spec_position(profiles, name)->0;
                lemma_update_keeps_unique(
                    profiles,
                    at,
                    ProfileModel { champion: spec_binding(option), ..profiles[at] },
                );
            }
        },
        MessageModel::PostLink(link, name) => {
            lemma_index_of(profiles, name, 0);
            if spec_position(profiles, name) is Some {
                let at = spec_position(profiles, name)->0;
                lemma_update_keeps_unique(
                    profiles,
                    at,
                    ProfileModel { last_link: link, ..profiles[at] },
                );
            }
        },
        MessageModel::AddProfileFromString(content) => {
            let imported = spec_from_string(encode_utf8(content), state.root, profiles);
            if imported is Ok {
                lemma_push_keeps_unique(profiles, imported->Ok_0.0);
            }
        },
        _ => {},
    }
}

/// The state after the events among `actions` have been taken in, in order.
pub open spec fn after_events(state: AppModel, actions: Seq<Action>) -> AppModel
    decreases actions.len(),
{
    if actions.len() == 0 {
        state
    } else {
        let next = match actions[0] {
            Action::Emit(event) => spec_update(state, MessageModel::WebsocketEvent(event), None).0,
            _ => state,
        };
        after_events(next, actions.drop_first())
    }
}

/// Whether the connection state is what the watcher's phase makes it: the
/// connection stands exactly while the watcher is connected, and a countdown
/// shows exactly while the watcher counts, with the number last announced.
/// While a new attempt is under way the last number may still show.
pub open spec fn follows(state: AppModel, phase: Phase) -> bool {
    match phase {
        Phase::Idle => !state.connected && state.retry_in is None,
        Phase::Connecting => !state.connected,
        Phase::Connected => state.connected && state.retry_in is None,
        Phase::Retrying(left) => !state.connected && state.retry_in == Some(left),
    }
}

/// The connection state follows the watcher. If it does before a step of the
/// watcher, it does again once the events of that step have been taken in.
/// So a countdown never shows while the connection stands.
pub proof fn lemma_state_follows_watcher(state: AppModel, phase: Phase, signal: SignalModel)
    requires
        follows(state, phase),
    ensures
        follows(after_events(state, spec_step(phase, signal).1), spec_step(phase, signal).0),
        state.connected ==> state.retry_in is None,
{
    let (next, actions) = spec_step(phase, signal);
    reveal_with_fuel(after_events, 4);
    if actions.len() > 0 {
        let rest = actions.drop_first();
        if rest.len() > 0 {
            assert(rest[0] == actions[1]);
            if rest.drop_first().len() > 0 {
                assert(rest.drop_first()[0] == actions[2]);
            }
        }
    }
}

/// No message but a report of the watcher touches the connection state.
pub proof fn lemma_others_keep_connection_state(
    state: AppModel,
    message: MessageModel,
    packed: Option<Seq<u8>>,
    phase: Phase,
)
    requires
        follows(state, phase),
        !(message is WebsocketEvent),
    ensures
        follows(spec_update(state, message, packed).0, phase),
{
}

/// A failed swap reaches the user. When a swap reports that an operation
/// failed, as it does where a stored file is missing
/// ([`crate::profile::lemma_swap_needs_stored_files`]), the state shows the
/// error and no success, whoever asked for the swap. Success is shown for a
/// swap by hand only, and only once it has gone through: asking for it shows
/// nothing yet.
pub proof fn lemma_swap_outcome_is_shown(state: AppModel, swap: SwapModel, profile: ProfileModel)
    ensures
        ({
            let (failed, _) = spec_update(state, MessageModel::Swapped(swap, false), None);
            let (done, _) = spec_update(state, MessageModel::Swapped(swap, true), None);
            let (asked, _) = spec_update(state, MessageModel::UseProfile(profile), None);
            &&& failed.error == Some(Error::Swap)
            &&& failed.success is None
            &&& done.error is None
            &&& done.success is Some <==> swap.manual
            &&& asked.success is None
        }),
{
}

/// Whether no two profiles of the list share a binding: at most one is
/// bound to each champion, and at most one is the default.
pub open spec fn bindings_unique(profiles: Seq<ProfileModel>) -> bool {
    forall|i: int, j: int|
        0 <= i < j < profiles.len() && (#[trigger] profiles[i]).champion is Some ==> profiles[i].champion
            != (#[trigger] profiles[j]).champion
}

/// Bindings stay unique. Among profiles with different names, of which no
/// two share a binding, no message makes two share one: a binding that
/// another profile has is refused when it is picked, and new profiles come
/// unbound.
pub proof fn lemma_bindings_stay_unique(
    state: AppModel,
    message: MessageModel,
    packed: Option<Seq<u8>>,
)
    requires
        names_unique(state.profiles),
        bindings_unique(state.profiles),
    ensures
        bindings_unique(spec_update(state, message, packed).0.profiles),
{
    let profiles = state.profiles;
    let after = spec_update(state, message, packed).0.profiles;
    match message {
        MessageModel::RemoveProfile(name) => {
            lemma_index_of(profiles, name, 0);
            if spec_position(profiles, name) is Some {
                let at = spec_position(profiles, name)->0;
                assert forall|i: int, j: int|
                    0 <= i < j < after.len() && (#[trigger] after[i]).champion is Some implies after[i].champion
                    != (#[trigger] after[j]).champion by {
                    let from_i = if i < at {
                        i
                    } else {
                        i + 1
                    };
                    let from_j = if j < at {
                        j
                    } else {
                        j + 1
                    };
                    assert(profiles[from_i].champion != profiles[from_j].champion);
                }
            }
        },
        MessageModel::Edit(name) => {
            lemma_index_of(profiles, name, 0);
            lemma_same_bindings(profiles, after);
        },
        MessageModel::Confirm(name) => {
            lemma_index_of(profiles, name, 0);
            lemma_same_bindings(profiles, after);
        },
        MessageModel::Reset(name) => {
            lemma_index_of(profiles, name, 0);
            lemma_same_bindings(profiles, after);
        },
        MessageModel::OnChange(name, typed) => {
            lemma_index_of(profiles, name, 0);
            lemma_same_bindings(profiles, after);
        },
        MessageModel::PostLink(link, name) => {
            lemma_index_of(profiles, name, 0);
            lemma_same_bindings(profiles, after);
        },
        MessageModel::PickListChange(name, option) => {
            lemma_index_of(profiles, name, 0);
            lemma_binding_reads_back(option);
            if !option_taken(profiles, name, option) && spec_position(profiles, name) is Some {
                let at = spec_position(profiles, name)->0;
                let bound = spec_binding(option);
                assert forall|i: int, j: int|
                    0 <= i < j < after.len() && (#[trigger] after[i]).champion is Some implies after[i].champion
                    != (#[trigger] after[j]).champion by {
                    if i != at && j != at {
                        assert(profiles[i].champion != profiles[j].champion);
                    } else {
                        let other = if i == at {
                            j
                        } else {
                            i
                        };
                        if profiles[other].champion == bound {
                            assert(profiles[other].name != profiles[at].name);
                            assert(spec_shown(profiles[other].champion) == Some(option));
                        }
                    }
                }
            }
        },
        _ => {
            assert forall|i: int, j: int|
                0 <= i < j < after.len() && (#[trigger] after[i]).champion is Some implies after[i].champion
                != (#[trigger] after[j]).champion by {
                if j < profiles.len() {
                    assert(profiles[i].champion != profiles[j].champion);
                }
            }
        },
    }
}

/// A list whose profiles carry the bindings of another, place by place, has
/// no shared binding where the other has none.
proof fn lemma_same_bindings(before: Seq<ProfileModel>, after: Seq<ProfileModel>)
    requires
        bindings_unique(before),
        after.len() == before.len(),
        forall|i: int| 0 <= i < before.len() ==> (#[trigger] after[i]).champion == before[i].champion,
    ensures
        bindings_unique(after),
{
    assert forall|i: int, j: int|
        0 <= i < j < after.len() && (#[trigger] after[i]).champion is Some implies after[i].champion
        != (#[trigger] after[j]).champion by {
        assert(before[i].champion != before[j].champion);
    }
}

} // verus!

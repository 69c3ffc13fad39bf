//! Stored profiles: named copies of the two settings files.

use crate::archive::entry_models;
use crate::archive::is_safe_name;
use crate::archive::lemma_settings_names_safe;
use crate::archive::lists;
use crate::archive::safe_name;
use crate::archive::safe_names;
use crate::archive::pack;
use crate::archive::spec_unpack;
use crate::archive::unpack;
use crate::archive::zip_listing;
use crate::archive::EntryModel;
use crate::cfg::Cfg;
use crate::champion::get_champion_id_from_name;
use crate::champion::get_champion_name_from_id;
use crate::champion::get_champion_name_list;
use crate::champion::lemma_id_has_name;
use crate::champion::lemma_name_round_trip;
use crate::champion::spec_id_from_name;
use crate::champion::spec_name_from_id;
use crate::champion::spec_name_list;
use crate::error::Error;
use crate::fs::lemma_run_concat;
use crate::fs::lemma_run_one;
use crate::fs::op_models;
use crate::fs::under;
use crate::fs::Disk;
use crate::fs::FileOp;
use crate::fs::FileOpModel;
use crate::fs::FileState;
use crate::game_settings::lemma_files_differ;
use crate::game_settings::lemma_files_inside;
use crate::game_settings::lemma_lock_sets_both;
use crate::game_settings::GameSettings;
use crate::game_settings::GameSettingsModel;
use crate::settings::Settings;
use crate::settings::SettingsModel;
use crate::task::Task;
use crate::task::TaskModel;
use crate::text::decimal;
use crate::text::lemma_decimal_injective;
use crate::text::join;
use crate::text::spec_decimal;
use crate::text::spec_join;
use crate::text::str_eq;
use vstd::prelude::*;
use vstd::utf8::encode_utf8;

verus! {

/// A stored profile.
#[derive(Debug, PartialEq, Eq)]
pub struct Profile {
    name: String,
    editing: bool,
    edit_name: String,
    champion: Option<u32>,
    last_link: String,
}

/// A [`Profile`] as a mathematical value.
pub struct ProfileModel {
    /// The display name, which is also the name of the profile's directory.
    pub name: Seq<char>,
    /// Whether the name is being edited.
    pub editing: bool,
    /// The name typed so far while editing.
    pub edit_name: Seq<char>,
    /// The binding: `None` for none, `Some(0)` for the default profile,
    /// `Some(id)` for champion `id`.
    pub champion: Option<u32>,
    /// The link the profile was last shared under; empty when there is none.
    pub last_link: Seq<char>,
}

impl View for Profile {
    type V = ProfileModel;

    closed spec fn view(&self) -> ProfileModel {
        ProfileModel {
            name: self.name@,
            editing: self.editing,
            edit_name: self.edit_name@,
            champion: self.champion,
            last_link: self.last_link@,
        }
    }
}

impl Clone for Profile {
    fn clone(&self) -> (copy: Profile)
        ensures
            copy@ == self@,
    {
        Profile {
            name: self.name.clone(),
            editing: self.editing,
            edit_name: self.edit_name.clone(),
            champion: self.champion,
            last_link: self.last_link.clone(),
        }
    }
}

/// Whether a binding can be shown: it is absent, the default, or a champion
/// of the table.
pub open spec fn bindable(champion: Option<u32>) -> bool {
    match champion {
        None => true,
        Some(id) => id == 0 || spec_name_from_id(id) is Some,
    }
}

/// The models of a list of profiles, in order.
pub open spec fn profile_models(profiles: Seq<Profile>) -> Seq<ProfileModel> {
    profiles.map_values(|profile: Profile| profile@)
}

/// Whether some profile of the list carries the name.
pub open spec fn taken(name: Seq<char>, profiles: Seq<ProfileModel>) -> bool {
    exists|i: int| 0 <= i < profiles.len() && #[trigger] profiles[i].name == name
}

/// The `n`th generated name.
pub open spec fn generated_name(n: nat) -> Seq<char> {
    "profile_"@ + spec_decimal(n)
}

/// How many generated names there are.
pub open spec fn generated_names() -> nat {
    15
}

/// The first number at or after `from` whose generated name is free.
pub open spec fn first_free(profiles: Seq<ProfileModel>, from: nat) -> Option<nat>
    decreases generated_names() - from,
{
    if from >= generated_names() {
        None
    } else if !taken(generated_name(from), profiles) {
        Some(from)
    } else {
        first_free(profiles, from + 1)
    }
}

/// The name that a new profile gets: the first free generated name.
pub open spec fn spec_gen_name(profiles: Seq<ProfileModel>) -> Option<Seq<char>> {
    match first_free(profiles, 0) {
        Some(n) => Some(generated_name(n)),
        None => None,
    }
}

/// A profile as it is right after creation: not being edited, unbound,
/// never shared.
pub open spec fn fresh(name: Seq<char>) -> ProfileModel {
    ProfileModel {
        name,
        editing: false,
        edit_name: Seq::empty(),
        champion: None,
        last_link: Seq::empty(),
    }
}

/// A profile as loaded from its directory and sidecar: the binding and the
/// link are taken as the sidecar has them.
pub open spec fn loaded(name: Seq<char>, settings: SettingsModel) -> ProfileModel {
    ProfileModel {
        name,
        editing: false,
        edit_name: Seq::empty(),
        champion: settings.champion,
        last_link: settings.last_link,
    }
}

/// The operations that store a copy of the active files in `dir`.
pub open spec fn spec_snapshot(active: GameSettingsModel, dir: Seq<char>) -> Seq<FileOpModel> {
    seq![
        FileOpModel::CreateDirAll { path: dir },
        FileOpModel::Copy { from: active.game, to: GameSettings::at(dir).game },
        FileOpModel::Copy { from: active.settings, to: GameSettings::at(dir).settings },
    ]
}

/// The operations that put the files stored in `dir` in place of the active
/// files: clear the read-only attribute of both active files, then copy.
pub open spec fn spec_swap(dir: Seq<char>, active: GameSettingsModel) -> Seq<FileOpModel> {
    seq![
        FileOpModel::SetReadonly { path: active.game, value: false },
        FileOpModel::SetReadonly { path: active.settings, value: false },
        FileOpModel::Copy { from: GameSettings::at(dir).game, to: active.game },
        FileOpModel::Copy { from: GameSettings::at(dir).settings, to: active.settings },
    ]
}

/// The operations that extract archive entries into `dir`.
pub open spec fn spec_extract(dir: Seq<char>, entries: Seq<EntryModel>) -> Seq<FileOpModel> {
    seq![FileOpModel::CreateDirAll { path: dir }] + entries.map_values(
        |entry: EntryModel| FileOpModel::Write { path: spec_join(dir, entry.0), content: entry.1 },
    )
}

/// The name that an imported profile gets: the archive's own name where it
/// is free, else the first free generated name.
pub open spec fn spec_import_name(stem: Seq<char>, profiles: Seq<ProfileModel>) -> Option<
    Seq<char>,
> {
    if !taken(stem, profiles) {
        Some(stem)
    } else {
        spec_gen_name(profiles)
    }
}

/// What importing an archive amounts to, given what unpacking it produced.
/// An archive with an entry whose name would lead out of the profile's
/// directory is refused as a whole.
pub open spec fn spec_from_archive(
    stem: Seq<char>,
    unpacked: Option<Seq<EntryModel>>,
    root: Seq<char>,
    profiles: Seq<ProfileModel>,
) -> Result<(ProfileModel, Seq<FileOpModel>), Error> {
    match (spec_import_name(stem, profiles), unpacked) {
        (Some(name), Some(entries)) => if safe_names(entries) {
            Ok((fresh(name), spec_extract(spec_join(root, name), entries)))
        } else {
            Err(Error::ZipImport)
        },
        _ => Err(Error::ZipImport),
    }
}

/// What importing a shared blob amounts to.
pub open spec fn spec_from_string(
    blob: Seq<u8>,
    root: Seq<char>,
    profiles: Seq<ProfileModel>,
) -> Result<(ProfileModel, Seq<FileOpModel>), Error> {
    match spec_gen_name(profiles) {
        Some(name) => match GameSettings::spec_from_string(spec_join(root, name), blob) {
            Some(writes) => Ok(
                (
                    fresh(name),
                    seq![FileOpModel::CreateDirAll { path: spec_join(root, name) }] + writes,
                ),
            ),
            None => Err(Error::Import),
        },
        None => Err(Error::Import),
    }
}

/// The entries of an exported archive.
pub open spec fn spec_export_entries(game: Seq<u8>, settings: Seq<u8>) -> Seq<EntryModel> {
    seq![("game.cfg"@, game), ("PersistedSettings.json"@, settings)]
}

/// Where the exported archive of the profile `name` goes in `export_dir`.
pub open spec fn spec_export_path(export_dir: Seq<char>, name: Seq<char>) -> Seq<char> {
    spec_join(export_dir, name + ".zip"@)
}

/// What an export amounts to, given what packing produced.
pub open spec fn spec_exported(
    name: Seq<char>,
    export_dir: Seq<char>,
    packed: Option<Seq<u8>>,
) -> Result<(Seq<char>, Seq<FileOpModel>), Error> {
    match packed {
        Some(bytes) => Ok(
            (
                spec_export_path(export_dir, name),
                seq![FileOpModel::Write { path: spec_export_path(export_dir, name), content: bytes }],
            ),
        ),
        None => Err(Error::ZipExport),
    }
}

/// Whether renaming `me` to its edit buffer would take the name of another
/// profile of the list.
pub open spec fn collides(me: ProfileModel, profiles: Seq<ProfileModel>) -> bool {
    exists|i: int|
        0 <= i < profiles.len() && #[trigger] profiles[i].name == me.edit_name && profiles[i].name
            != me.name
}

/// The binding that a pick-list option stands for.
pub open spec fn spec_binding(option: Seq<char>) -> Option<u32> {
    if option == "Disabled"@ {
        None
    } else if option == "Default"@ {
        Some(0)
    } else {
        spec_id_from_name(option)
    }
}

/// The pick-list option that shows a binding, if there is one: none shows a
/// binding to a champion that the table does not know.
pub open spec fn spec_shown(champion: Option<u32>) -> Option<Seq<char>> {
    match champion {
        None => Some("Disabled"@),
        Some(id) => if id == 0 {
            Some("Default"@)
        } else {
            spec_name_from_id(id)
        },
    }
}

/// The pick-list option that shows a binding that can be shown.
pub open spec fn spec_selected(champion: Option<u32>) -> Seq<char> {
    spec_shown(champion)->0
}

/// All pick-list options: the two fixed ones, then every champion.
pub open spec fn spec_options() -> Seq<Seq<char>> {
    seq!["Disabled"@, "Default"@] + spec_name_list()
}

/// The sidecar of a profile.
pub open spec fn spec_settings(profile: ProfileModel) -> SettingsModel {
    SettingsModel { champion: profile.champion, last_link: profile.last_link }
}

/// The task that persists the sidecar of a profile stored below `root`.
pub open spec fn spec_save_settings(profile: ProfileModel, root: Seq<char>) -> TaskModel {
    TaskModel::SaveSettings {
        path: spec_join(spec_join(root, profile.name), "settings.json"@),
        settings: spec_settings(profile),
    }
}

// Name generation.
impl Profile {
    /// The first free name of the form `profile_<n>`, `n` below fifteen.
    /// `None` when all fifteen are taken.
    pub fn gen_name(profiles: &Vec<Profile>) -> (name: Option<String>)
        ensures
            match name {
                Some(found) => spec_gen_name(profile_models(profiles@)) == Some(found@),
                None => spec_gen_name(profile_models(profiles@)) is None,
            },
    {
        let mut i: u32 = 0;
        while i < 15
            invariant
                i <= 15,
                first_free(profile_models(profiles@), 0) == first_free(
                    profile_models(profiles@),
                    i as nat,
                ),
            decreases 15 - i,
        {
            let mut name = String::from_str("profile_");
            let digits = decimal(i);
            name.append(digits.as_str());
            if Self::check_name(&name, profiles) {
                return Some(name);
            }
            i += 1;
        }
        None
    }

    /// Whether `name` is free: no profile of the list carries it.
    pub fn check_name(name: &String, profiles: &Vec<Profile>) -> (free: bool)
        ensures
            free == !taken(name@, profile_models(profiles@)),
    {
        let mut i: usize = 0;
        while i < profiles.len()
            invariant
                i <= profiles@.len(),
                forall|j: int| 0 <= j < i ==> profile_models(profiles@)[j].name != name@,
            decreases profiles@.len() - i,
        {
            if str_eq(profiles[i].name.as_str(), name.as_str()) {
                assert(profile_models(profiles@)[i as int].name == name@);
                return false;
            }
            i += 1;
        }
        true
    }
}

// Constructors.
impl Profile {
    fn blank(name: String) -> (profile: Profile)
        ensures
            profile@ == fresh(name@),
    {
        Profile {
            name,
            editing: false,
            edit_name: String::new(),
            champion: None,
            last_link: String::new(),
        }
    }

    /// Creates a profile from the active files: picks the first free
    /// generated name and stores a copy of both files under it.
    /// `None` when no generated name is free.
    pub fn new(cfg: &Cfg, root: &str, profiles: &Vec<Profile>) -> (created: Option<
        (Profile, Vec<FileOp>),
    >)
        ensures
            match created {
                Some((profile, ops)) => {
                    &&& spec_gen_name(profile_models(profiles@)) == Some(profile@.name)
                    &&& profile@ == fresh(profile@.name)
                    &&& op_models(ops@) == spec_snapshot(cfg@, spec_join(root@, profile@.name))
                },
                None => spec_gen_name(profile_models(profiles@)) is None,
            },
    {
        match Self::gen_name(profiles) {
            None => None,
            Some(name) => {
                let dir = join(root, name.as_str());
                let stored = GameSettings::located(dir.as_str());
                let mut ops: Vec<FileOp> = Vec::new();
                ops.push(FileOp::CreateDirAll { path: dir });
                ops.push(FileOp::Copy { from: cfg.game.clone(), to: stored.game });
                ops.push(FileOp::Copy { from: cfg.settings.clone(), to: stored.settings });
                Some((Self::blank(name), ops))
            },
        }
    }

    fn all_safe(entries: &Vec<(String, Vec<u8>)>) -> (safe: bool)
        ensures
            safe == safe_names(entry_models(entries@)),
    {
        let mut i: usize = 0;
        while i < entries.len()
            invariant
                i <= entries@.len(),
                forall|j: int|
                    0 <= j < i ==> safe_name(
                        encode_utf8((#[trigger] entry_models(entries@)[j]).0),
                    ),
            decreases entries@.len() - i,
        {
            if !is_safe_name(entries[i].0.as_str()) {
                assert(!safe_name(encode_utf8(entry_models(entries@)[i as int].0)));
                return false;
            }
            i += 1;
        }
        true
    }

    /// Imports a profile, given the archive's file stem and what unpacking
    /// the archive produced. The profile is named after the archive where
    /// that name is free, else by the first free generated name, and every
    /// entry is written below the profile's directory under its own name.
    /// Fails with [`Error::ZipImport`] when the archive could not be
    /// unpacked, no name is free, or an entry's name is empty, begins with a
    /// separator or has a `..` part: nothing is written then, so that every
    /// write of an import lies inside the new profile's directory.
    pub fn from_archive(
        stem: &str,
        unpacked: Option<Vec<(String, Vec<u8>)>>,
        root: &str,
        profiles: &Vec<Profile>,
    ) -> (imported: Result<(Profile, Vec<FileOp>), Error>)
        ensures
            match imported {
                Ok((profile, ops)) => spec_from_archive(
                    stem@,
                    match unpacked {
                        Some(entries) => Some(entry_models(entries@)),
                        None => None,
                    },
                    root@,
                    profile_models(profiles@),
                ) == Ok::<_, Error>((profile@, op_models(ops@))),
                Err(error) => spec_from_archive(
                    stem@,
                    match unpacked {
                        Some(entries) => Some(entry_models(entries@)),
                        None => None,
                    },
                    root@,
                    profile_models(profiles@),
                ) == Err::<(ProfileModel, Seq<FileOpModel>), _>(error),
            },
    {
        let own = String::from_str(stem);
        let name = if Self::check_name(&own, profiles) {
            Some(own)
        } else {
            Self::gen_name(profiles)
        };
        match (name, unpacked) {
            (Some(name), Some(entries)) => {
                if !Self::all_safe(&entries) {
                    return Err(Error::ZipImport);
                }
                let dir = join(root, name.as_str());
                let mut ops: Vec<FileOp> = Vec::new();
                ops.push(FileOp::CreateDirAll { path: dir.clone() });
                let mut i: usize = 0;
                while i < entries.len()
                    invariant
                        i <= entries@.len(),
                        dir@ == spec_join(root@, name@),
                        op_models(ops@) == spec_extract(dir@, entry_models(entries@).take(i as int)),
                    decreases entries@.len() - i,
                {
                    let ghost before = op_models(ops@);
                    let path = join(dir.as_str(), entries[i].0.as_str());
                    let content = entries[i].1.clone();
                    ops.push(FileOp::Write { path, content });
                    proof {
                        let all = entry_models(entries@);
                        assert(op_models(ops@) =~= before.push(
                            FileOpModel::Write {
                                path: spec_join(dir@, all[i as int].0),
                                content: all[i as int].1,
                            },
                        ));
                    }
                    i += 1;
                }
                proof {
                    let all = entry_models(entries@);
                    assert(all.take(i as int) =~= all);
                }
                Ok((Self::blank(name), ops))
            },
            _ => Err(Error::ZipImport),
        }
    }

    /// Imports a profile from an archive held in memory. `stem` is the
    /// archive's file name without its extension.
    pub fn from_zip(stem: &str, bytes: Vec<u8>, root: &str, profiles: &Vec<Profile>) -> (imported:
        Result<(Profile, Vec<FileOp>), Error>)
        ensures
            match imported {
                Ok((profile, ops)) => spec_from_archive(
                    stem@,
                    spec_unpack(zip_listing(bytes@)),
                    root@,
                    profile_models(profiles@),
                ) == Ok::<_, Error>((profile@, op_models(ops@))),
                Err(error) => spec_from_archive(
                    stem@,
                    spec_unpack(zip_listing(bytes@)),
                    root@,
                    profile_models(profiles@),
                ) == Err::<(ProfileModel, Seq<FileOpModel>), _>(error),
            },
    {
        let unpacked = unpack(bytes);
        Self::from_archive(stem, unpacked, root, profiles)
    }

    /// Imports a profile from a shared blob: the first free generated name,
    /// and the two halves of the blob as the two settings files. Fails with
    /// [`Error::Import`] when the blob holds no separator or no name is free.
    pub fn from_string(content: &str, root: &str, profiles: &Vec<Profile>) -> (imported: Result<
        (Profile, Vec<FileOp>),
        Error,
    >)
        ensures
            match imported {
                Ok((profile, ops)) => spec_from_string(
                    encode_utf8(content@),
                    root@,
                    profile_models(profiles@),
                ) == Ok::<_, Error>((profile@, op_models(ops@))),
                Err(error) => spec_from_string(
                    encode_utf8(content@),
                    root@,
                    profile_models(profiles@),
                ) == Err::<(ProfileModel, Seq<FileOpModel>), _>(error),
            },
    {
        match Self::gen_name(profiles) {
            None => Err(Error::Import),
            Some(name) => {
                let dir = join(root, name.as_str());
                match GameSettings::from_string(dir.as_str(), content) {
                    Err(_) => Err(Error::Import),
                    Ok((_, writes)) => {
                        let mut writes = writes;
                        let ghost wanted = op_models(writes@);
                        let mut ops: Vec<FileOp> = Vec::new();
                        ops.push(FileOp::CreateDirAll { path: dir });
                        ops.append(&mut writes);
                        assert(op_models(ops@) =~= seq![
                            FileOpModel::CreateDirAll { path: spec_join(root@, name@) },
                        ] + wanted);
                        Ok((Self::blank(name), ops))
                    },
                }
            },
        }
    }

    /// Builds the profiles found in the profile root: one per directory,
    /// with what its sidecar says.
    pub fn profiles(entries: &Vec<(String, Settings)>) -> (profiles: Vec<Profile>)
        ensures
            profiles@.len() == entries@.len(),
            forall|i: int|
                0 <= i < entries@.len() ==> (#[trigger] profiles@[i])@ == loaded(
                    entries@[i].0@,
                    entries@[i].1@,
                ),
    {
        let mut profiles: Vec<Profile> = Vec::new();
        let mut i: usize = 0;
        while i < entries.len()
            invariant
                i <= entries@.len(),
                profiles@.len() == i,
                forall|j: int|
                    0 <= j < i ==> (#[trigger] profiles@[j])@ == loaded(
                        entries@[j].0@,
                        entries@[j].1@,
                    ),
            decreases entries@.len() - i,
        {
            profiles.push(
                Profile {
                    name: entries[i].0.clone(),
                    editing: false,
                    edit_name: String::new(),
                    champion: entries[i].1.champion,
                    last_link: entries[i].1.last_link.clone(),
                },
            );
            i += 1;
        }
        profiles
    }
}

impl Profile {
    /// The display name.
    pub fn name(&self) -> (name: &String)
        ensures
            name@ == self@.name,
    {
        &self.name
    }

    /// The binding.
    pub fn champion(&self) -> (champion: &Option<u32>)
        ensures
            *champion == self@.champion,
    {
        &self.champion
    }

    /// Whether the binding can be shown: it is absent, the default, or a
    /// champion of the table.
    pub fn binding_known(&self) -> (known: bool)
        ensures
            known == bindable(self@.champion),
    {
        match self.champion {
            None => true,
            Some(id) => id == 0 || get_champion_name_from_id(id).is_some(),
        }
    }

    /// Whether the pick-list option shows the profile's binding. No option
    /// shows a binding to a champion that the table does not know.
    pub fn shows(&self, option: &str) -> (shown: bool)
        ensures
            shown == (spec_shown(self@.champion) == Some(option@)),
    {
        match self.champion {
            None => str_eq("Disabled", option),
            Some(id) => {
                if id == 0 {
                    str_eq("Default", option)
                } else {
                    match get_champion_name_from_id(id) {
                        Some(name) => str_eq(name, option),
                        None => false,
                    }
                }
            },
        }
    }

    /// Whether the name is being edited.
    pub fn editing(&self) -> (editing: bool)
        ensures
            editing == self@.editing,
    {
        self.editing
    }

    /// The name typed so far while editing.
    pub fn edit_name(&self) -> (edit_name: &String)
        ensures
            edit_name@ == self@.edit_name,
    {
        &self.edit_name
    }

    /// The link the profile was last shared under; empty when there is none.
    pub fn last_link(&self) -> (link: &String)
        ensures
            link@ == self@.last_link,
    {
        &self.last_link
    }

    /// The profile's directory below `root`.
    pub fn path(&self, root: &str) -> (dir: String)
        ensures
            dir@ == spec_join(root@, self@.name),
    {
        join(root, self.name.as_str())
    }

    /// The profile's stored copies of the two settings files.
    pub fn game_settings(&self, root: &str) -> (stored: GameSettings)
        ensures
            stored@ == GameSettings::at(spec_join(root@, self@.name)),
    {
        let dir = self.path(root);
        GameSettings::located(dir.as_str())
    }

    /// Removes the profile's directory with all it holds.
    pub fn delete(&self, root: &str) -> (ops: Vec<FileOp>)
        ensures
            op_models(ops@) == seq![
                FileOpModel::RemoveDirAll { path: spec_join(root@, self@.name) },
            ],
    {
        let mut ops: Vec<FileOp> = Vec::new();
        ops.push(FileOp::RemoveDirAll { path: self.path(root) });
        ops
    }

    /// Puts the profile's stored files in place of the active ones. The
    /// read-only attribute of both active files is cleared first; it is not
    /// set again here.
    pub fn copy_files(&self, root: &str, cfg: &Cfg) -> (ops: Vec<FileOp>)
        ensures
            op_models(ops@) == spec_swap(spec_join(root@, self@.name), cfg@),
    {
        let stored = self.game_settings(root);
        let mut ops = cfg.set_readonly(false);
        assert(ops@.len() == op_models(ops@).len());
        ops.push(FileOp::Copy { from: stored.game, to: cfg.game.clone() });
        ops.push(FileOp::Copy { from: stored.settings, to: cfg.settings.clone() });
        assert(op_models(ops@) =~= spec_swap(spec_join(root@, self@.name), cfg@));
        ops
    }

    /// Starts editing the name: the edit buffer takes the current name.
    pub fn edit_start(&mut self)
        ensures
            final(self)@ == (ProfileModel {
                editing: true,
                edit_name: old(self)@.name,
                ..old(self)@
            }),
    {
        self.edit_name = self.name.clone();
        self.editing = true;
    }

    /// Renames the profile to what the edit buffer holds, unless another
    /// profile of `profiles` carries that name. A refused rename changes
    /// nothing, in the profile or on disk.
    pub fn edit_confirm(&mut self, root: &str, profiles: &Vec<Profile>) -> (renamed: Result<
        Vec<FileOp>,
        Error,
    >)
        ensures
            match renamed {
                Ok(ops) => {
                    &&& !collides(old(self)@, profile_models(profiles@))
                    &&& final(self)@ == (ProfileModel {
                        name: old(self)@.edit_name,
                        editing: false,
                        ..old(self)@
                    })
                    &&& op_models(ops@) == seq![
                        FileOpModel::Rename {
                            from: spec_join(root@, old(self)@.name),
                            to: spec_join(root@, old(self)@.edit_name),
                        },
                    ]
                },
                Err(error) => {
                    &&& error == Error::NameTaken
                    &&& collides(old(self)@, profile_models(profiles@))
                    &&& final(self)@ == old(self)@
                },
            },
    {
        let mut i: usize = 0;
        while i < profiles.len()
            invariant
                i <= profiles@.len(),
                *self == *old(self),
                forall|j: int|
                    0 <= j < i ==> !(profile_models(profiles@)[j].name == self@.edit_name
                        && profile_models(profiles@)[j].name != self@.name),
            decreases profiles@.len() - i,
        {
            let other = &profiles[i];
            if str_eq(other.name.as_str(), self.edit_name.as_str()) && !str_eq(
                other.name.as_str(),
                self.name.as_str(),
            ) {
                assert(profile_models(profiles@)[i as int].name == self@.edit_name);
                return Err(Error::NameTaken);
            }
            i += 1;
        }
        let mut ops: Vec<FileOp> = Vec::new();
        ops.push(
            FileOp::Rename {
                from: join(root, self.name.as_str()),
                to: join(root, self.edit_name.as_str()),
            },
        );
        self.editing = false;
        self.name = self.edit_name.clone();
        Ok(ops)
    }

    /// Stops editing the name and keeps the name as it is.
    pub fn edit_reset(&mut self)
        ensures
            final(self)@ == (ProfileModel { editing: false, ..old(self)@ }),
    {
        self.editing = false;
    }

    /// Replaces the edit buffer.
    pub fn set_edit_name(&mut self, new_name: String)
        ensures
            final(self)@ == (ProfileModel { edit_name: new_name@, ..old(self)@ }),
    {
        self.edit_name = new_name;
    }

    /// The entries of the profile's archive: the two settings files, under
    /// their own names, the primary file first.
    pub fn export_entries(game: Vec<u8>, settings: Vec<u8>) -> (entries: Vec<(String, Vec<u8>)>)
        ensures
            entry_models(entries@) == spec_export_entries(game@, settings@),
    {
        let mut entries: Vec<(String, Vec<u8>)> = Vec::new();
        entries.push((String::from_str("game.cfg"), game));
        entries.push((String::from_str("PersistedSettings.json"), settings));
        entries
    }

    /// Finishes an export, given what packing the archive produced: the
    /// archive is written as `<name>.zip` into `export_dir`, and its path is
    /// handed back. A failed packing gives [`Error::ZipExport`].
    pub fn exported(&self, export_dir: &str, packed: Option<Vec<u8>>) -> (exported: Result<
        (String, Vec<FileOp>),
        Error,
    >)
        ensures
            match exported {
                Ok((path, ops)) => spec_exported(
                    self@.name,
                    export_dir@,
                    match packed {
                        Some(bytes) => Some(bytes@),
                        None => None,
                    },
                ) == Ok::<_, Error>((path@, op_models(ops@))),
                Err(error) => packed is None && error == Error::ZipExport,
            },
    {
        match packed {
            None => Err(Error::ZipExport),
            Some(bytes) => {
                let mut file = self.name.clone();
                file.append(".zip");
                let path = join(export_dir, file.as_str());
                let mut ops: Vec<FileOp> = Vec::new();
                ops.push(FileOp::Write { path: path.clone(), content: bytes });
                assert(op_models(ops@) =~= seq![
                    FileOpModel::Write {
                        path: spec_export_path(export_dir@, self@.name),
                        content: bytes@,
                    },
                ]);
                Ok((path, ops))
            },
        }
    }

    /// Exports the profile: packs the bodies of its two stored files into a
    /// deflate-compressed archive and writes it as `<name>.zip` into
    /// `export_dir`. The archive written lists exactly the two settings
    /// files. Whether packing succeeds is the archive library's matter;
    /// [`Profile::exported`] says what follows from either outcome.
    pub fn zip(&self, game: Vec<u8>, settings: Vec<u8>, export_dir: &str) -> (exported: Result<
        (String, Vec<FileOp>),
        Error,
    >)
        ensures
            match exported {
                Ok((path, ops)) => exists|bytes: Seq<u8>|
                    lists(zip_listing(bytes), spec_export_entries(game@, settings@))
                        && #[trigger] spec_exported(self@.name, export_dir@, Some(bytes)) == Ok::<
                        _,
                        Error,
                    >((path@, op_models(ops@))),
                Err(error) => error == Error::ZipExport,
            },
    {
        let entries = Self::export_entries(game, settings);
        let packed = pack(&entries);
        let ghost bytes = if packed is Some {
            packed->0@
        } else {
            Seq::empty()
        };
        let exported = self.exported(export_dir, packed);
        proof {
            if exported is Ok {
                assert(lists(zip_listing(bytes), spec_export_entries(game@, settings@)));
                assert(spec_exported(self@.name, export_dir@, Some(bytes)) == Ok::<_, Error>(
                    (exported->Ok_0.0@, op_models(exported->Ok_0.1@)),
                ));
            }
        }
        exported
    }

    /// All pick-list options: `Disabled`, `Default`, then every champion.
    pub fn options_list() -> (options: Vec<&'static str>)
        ensures
            options@.len() == spec_options().len(),
            forall|i: int| 0 <= i < options@.len() ==> options@[i]@ == spec_options()[i],
    {
        let mut options: Vec<&'static str> = Vec::new();
        options.push("Disabled");
        options.push("Default");
        let mut names = get_champion_name_list();
        options.append(&mut names);
        options
    }

    /// The task that persists the profile's sidecar.
    pub fn save_settings(&self, root: &str) -> (task: Task)
        ensures
            task@ == spec_save_settings(self@, root@),
    {
        let settings = Settings { champion: self.champion, last_link: self.last_link.clone() };
        let dir = self.path(root);
        let path = join(dir.as_str(), "settings.json");
        Task::SaveSettings { path, settings }
    }

    /// The pick-list option that shows the profile's binding. There is none
    /// for a binding to a champion that the table does not know, so such a
    /// profile must not be asked; [`Profile::binding_known`] tells.
    pub fn selected(&self) -> (option: &'static str)
        requires
            bindable(self@.champion),
        ensures
            option@ == spec_selected(self@.champion),
    {
        match self.champion {
            None => "Disabled",
            Some(champ) => {
                if champ == 0 {
                    return "Default";
                }
                get_champion_name_from_id(champ).unwrap()
            },
        }
    }

    /// Binds the profile as the pick-list option says and persists the
    /// sidecar. An option that names no champion leaves the profile unbound.
    /// Whatever the option, the new binding can be shown.
    pub fn set_selected(&mut self, option: &str, root: &str) -> (task: Task)
        ensures
            final(self)@ == (ProfileModel { champion: spec_binding(option@), ..old(self)@ }),
            task@ == spec_save_settings(final(self)@, root@),
            bindable(final(self)@.champion),
    {
        let champion = if str_eq(option, "Disabled") {
            None
        } else if str_eq(option, "Default") {
            Some(0)
        } else {
            proof {
                lemma_id_has_name(option@);
            }
            get_champion_id_from_name(option)
        };
        self.champion = champion;
        self.save_settings(root)
    }

    /// Records the link the profile was shared under and persists the
    /// sidecar.
    pub fn set_link(&mut self, link: String, root: &str) -> (task: Task)
        ensures
            final(self)@ == (ProfileModel { last_link: link@, ..old(self)@ }),
            task@ == spec_save_settings(final(self)@, root@),
    {
        self.last_link = link;
        self.save_settings(root)
    }
}

/// Different numbers give different generated names.
pub proof fn lemma_generated_names_differ(m: nat, n: nat)
    requires
        generated_name(m) == generated_name(n),
    ensures
        m == n,
{
    let prefix = "profile_"@;
    assert(generated_name(m).subrange(prefix.len() as int, generated_name(m).len() as int)
        =~= spec_decimal(m));
    assert(generated_name(n).subrange(prefix.len() as int, generated_name(n).len() as int)
        =~= spec_decimal(n));
    lemma_decimal_injective(m, n);
}

/// What [`first_free`] finds: a free name with only taken names before it,
/// or nothing where every name from `from` on is taken.
pub proof fn lemma_first_free(profiles: Seq<ProfileModel>, from: nat)
    ensures
        match first_free(profiles, from) {
            Some(n) => from <= n < generated_names() && !taken(generated_name(n), profiles),
            None => forall|n: nat|
                from <= n < generated_names() ==> taken(#[trigger] generated_name(n), profiles),
        },
    decreases generated_names() - from,
{
    if from < generated_names() && taken(generated_name(from), profiles) {
        lemma_first_free(profiles, from + 1);
    }
}

/// How many of the first `upto` generated names are taken.
pub open spec fn taken_count(profiles: Seq<ProfileModel>, upto: nat) -> nat
    decreases upto,
{
    if upto == 0 {
        0
    } else {
        taken_count(profiles, (upto - 1) as nat) + if taken(
            generated_name((upto - 1) as nat),
            profiles,
        ) {
            1nat
        } else {
            0nat
        }
    }
}

/// No more names are taken than there are, and where all count as taken
/// each one is.
pub proof fn lemma_taken_count_full(profiles: Seq<ProfileModel>, upto: nat)
    ensures
        taken_count(profiles, upto) <= upto,
        taken_count(profiles, upto) == upto ==> forall|n: nat|
            n < upto ==> taken(#[trigger] generated_name(n), profiles),
    decreases upto,
{
    if upto > 0 {
        lemma_taken_count_full(profiles, (upto - 1) as nat);
    }
}

/// A new profile under a free generated name takes one more of the names.
pub proof fn lemma_creation_takes_a_name(profiles: Seq<ProfileModel>, number: nat, upto: nat)
    requires
        number < generated_names(),
        !taken(generated_name(number), profiles),
    ensures
        taken_count(profiles.push(fresh(generated_name(number))), upto) == taken_count(
            profiles,
            upto,
        ) + if number < upto {
            1nat
        } else {
            0nat
        },
    decreases upto,
{
    if upto > 0 {
        let last = (upto - 1) as nat;
        let after = profiles.push(fresh(generated_name(number)));
        lemma_creation_takes_a_name(profiles, number, last);
        if taken(generated_name(last), profiles) {
            let i = choose|i: int|
                0 <= i < profiles.len() && #[trigger] profiles[i].name == generated_name(last);
            assert(after[i].name == generated_name(last));
        }
        if last == number {
            assert(after[profiles.len() as int].name == generated_name(last));
        } else if taken(generated_name(last), after) {
            let i = choose|i: int|
                0 <= i < after.len() && #[trigger] after[i].name == generated_name(last);
            if i == profiles.len() {
                lemma_generated_names_differ(last, number);
            } else {
                assert(profiles[i].name == generated_name(last));
            }
        }
    }
}

/// Whether each list arises from the one before by creating one profile.
pub open spec fn creations(states: Seq<Seq<ProfileModel>>) -> bool {
    forall|k: int|
        0 <= k < states.len() - 1 ==> spec_gen_name(#[trigger] states[k]) is Some && states[k
            + 1] == states[k].push(fresh(spec_gen_name(states[k])->0))
}

/// After so many creations in a row, at least so many generated names are
/// taken.
pub proof fn lemma_creations_take_names(states: Seq<Seq<ProfileModel>>, made: int)
    requires
        creations(states),
        0 <= made < states.len(),
    ensures
        taken_count(states[made], generated_names()) >= made,
    decreases made,
{
    if made > 0 {
        lemma_creations_take_names(states, made - 1);
        let before = states[made - 1];
        assert(spec_gen_name(before) is Some && states[made - 1 + 1] == before.push(
            fresh(spec_gen_name(before)->0),
        ));
        lemma_first_free(before, 0);
        let number = first_free(before, 0)->0;
        lemma_creation_takes_a_name(before, number, generated_names());
    }
}

/// The names run out. However the list of profiles starts, when fifteen
/// profiles have been created one after the other and none was deleted, the
/// sixteenth creation finds no name and fails.
pub proof fn lemma_sixteenth_creation_fails(states: Seq<Seq<ProfileModel>>)
    requires
        states.len() == 16,
        creations(states),
    ensures
        spec_gen_name(states[15]) is None,
{
    lemma_creations_take_names(states, 15);
    lemma_taken_count_full(states[15], generated_names());
    lemma_first_free(states[15], 0);
    if first_free(states[15], 0) is Some {
        let n = first_free(states[15], 0)->0;
        assert(taken(generated_name(n), states[15]));
    }
}

/// The swap is aware of the lock. Where the profile's stored files and the
/// active files exist, swapping succeeds whether or not the active files are
/// read-only, and afterwards the active files hold what the stored files
/// held.
pub proof fn lemma_swap_brings_stored_content(disk: Disk, dir: Seq<char>, active_dir: Seq<char>)
    requires
        disk.has(GameSettings::at(dir).game),
        disk.has(GameSettings::at(dir).settings),
        disk.has(GameSettings::at(active_dir).game),
        disk.has(GameSettings::at(active_dir).settings),
    ensures
        disk.run(spec_swap(dir, GameSettings::at(active_dir))) matches Some(after) && {
            &&& after.files[GameSettings::at(active_dir).game].content
                == disk.files[GameSettings::at(dir).game].content
            &&& after.files[GameSettings::at(active_dir).settings].content
                == disk.files[GameSettings::at(dir).settings].content
        },
{
    let stored = GameSettings::at(dir);
    let active = GameSettings::at(active_dir);
    lemma_files_differ(active_dir, active_dir);
    lemma_files_differ(dir, active_dir);
    lemma_files_differ(active_dir, dir);
    let ops = spec_swap(dir, active);
    let rest1 = ops.drop_first();
    let rest2 = rest1.drop_first();
    let rest3 = rest2.drop_first();
    assert(rest1[0] == ops[1]);
    assert(rest2[0] == ops[2]);
    assert(rest3[0] == ops[3]);
    assert(rest3.drop_first() =~= Seq::<FileOpModel>::empty());
    let d1 = disk.apply(ops[0])->0;
    let d2 = d1.apply(ops[1])->0;
    assert(d2.has(stored.game) && !d2.locked(active.game));
    let d3 = d2.apply(ops[2])->0;
    assert(d3.has(stored.settings) && !d3.locked(active.settings));
    let d4 = d3.apply(ops[3])->0;
    assert(d3.run(rest3) == d4.run(rest3.drop_first()));
    assert(d2.run(rest2) == d3.run(rest3));
    assert(d1.run(rest1) == d2.run(rest2));
    assert(disk.run(ops) == d1.run(rest1));
}

/// Putting a profile to use leaves the lock as the user set it. Where the
/// stored and the active files exist, the swap followed by the lock succeeds,
/// and afterwards the active files hold what the stored files held and carry
/// the read-only attribute exactly if the lock is on.
pub proof fn lemma_use_applies_lock(
    disk: Disk,
    dir: Seq<char>,
    active_dir: Seq<char>,
    readonly: bool,
)
    requires
        disk.has(GameSettings::at(dir).game),
        disk.has(GameSettings::at(dir).settings),
        disk.has(GameSettings::at(active_dir).game),
        disk.has(GameSettings::at(active_dir).settings),
    ensures
        disk.run(
            spec_swap(dir, GameSettings::at(active_dir)) + GameSettings::spec_set_readonly(
                GameSettings::at(active_dir),
                readonly,
            ),
        ) matches Some(after) && {
            &&& after.files[GameSettings::at(active_dir).game] == (FileState {
                content: disk.files[GameSettings::at(dir).game].content,
                readonly,
            })
            &&& after.files[GameSettings::at(active_dir).settings] == (FileState {
                content: disk.files[GameSettings::at(dir).settings].content,
                readonly,
            })
        },
{
    let active = GameSettings::at(active_dir);
    let swap = spec_swap(dir, active);
    let lock = GameSettings::spec_set_readonly(active, readonly);
    lemma_swap_brings_stored_content(disk, dir, active_dir);
    lemma_run_concat(disk, swap, lock);
    let swapped = disk.run(swap)->0;
    lemma_swap_keeps_files(disk, swap, active.game);
    lemma_swap_keeps_files(disk, swap, active.settings);
    lemma_lock_sets_both(swapped, active, readonly);
}

/// Neither setting an attribute nor copying makes a file disappear.
proof fn lemma_swap_keeps_files(disk: Disk, ops: Seq<FileOpModel>, path: Seq<char>)
    requires
        disk.has(path),
        forall|i: int|
            0 <= i < ops.len() ==> (#[trigger] ops[i]) is SetReadonly || ops[i] is Copy,
    ensures
        disk.run(ops) matches Some(after) ==> after.has(path),
    decreases ops.len(),
{
    if ops.len() > 0 {
        match disk.apply(ops[0]) {
            Some(next) => {
                assert forall|i: int| 0 <= i < ops.drop_first().len() implies (
                #[trigger] ops.drop_first()[i]) is SetReadonly || ops.drop_first()[i] is Copy by {
                    assert(ops.drop_first()[i] == ops[i + 1]);
                }
                lemma_swap_keeps_files(next, ops.drop_first(), path);
            },
            None => {},
        }
    }
}

/// Creation stores what is active. Where the active files exist and
/// nothing read-only stands in the way, the operations of a creation succeed
/// and the new directory holds copies of both active files.
pub proof fn lemma_snapshot_stores_active(disk: Disk, active_dir: Seq<char>, dir: Seq<char>)
    requires
        disk.has(GameSettings::at(active_dir).game),
        disk.has(GameSettings::at(active_dir).settings),
        !disk.locked(GameSettings::at(dir).game),
        !disk.locked(GameSettings::at(dir).settings),
    ensures
        disk.run(spec_snapshot(GameSettings::at(active_dir), dir)) matches Some(after) && {
            &&& after.files[GameSettings::at(dir).game]
                == disk.files[GameSettings::at(active_dir).game]
            &&& after.files[GameSettings::at(dir).settings]
                == disk.files[GameSettings::at(active_dir).settings]
        },
{
    let active = GameSettings::at(active_dir);
    lemma_files_differ(dir, dir);
    lemma_files_differ(dir, active_dir);
    lemma_files_differ(active_dir, dir);
    let ops = spec_snapshot(active, dir);
    let rest1 = ops.drop_first();
    let rest2 = rest1.drop_first();
    assert(rest1[0] == ops[1]);
    assert(rest2[0] == ops[2]);
    assert(rest2.drop_first() =~= Seq::<FileOpModel>::empty());
    let d1 = disk.apply(ops[0])->0;
    let d2 = d1.apply(ops[1])->0;
    let d3 = d2.apply(ops[2])->0;
    assert(d2.run(rest2) == d3.run(rest2.drop_first()));
    assert(d1.run(rest1) == d2.run(rest2));
    assert(disk.run(ops) == d1.run(rest1));
}

/// A rename takes the stored files along. Where the profile's files exist
/// and nothing lives under the new name yet, moving the directory succeeds
/// and the files are found under the new name as they were under the old.
pub proof fn lemma_rename_takes_files_along(
    disk: Disk,
    root: Seq<char>,
    name: Seq<char>,
    new_name: Seq<char>,
)
    requires
        disk.has(GameSettings::at(spec_join(root, name)).game),
        disk.has(GameSettings::at(spec_join(root, name)).settings),
        forall|path: Seq<char>| disk.has(path) ==> !under(path, spec_join(root, new_name)),
    ensures
        disk.run(
            seq![
                FileOpModel::Rename {
                    from: spec_join(root, name),
                    to: spec_join(root, new_name),
                },
            ],
        ) matches Some(after) && {
            &&& after.has(GameSettings::at(spec_join(root, new_name)).game)
            &&& after.has(GameSettings::at(spec_join(root, new_name)).settings)
            &&& after.files[GameSettings::at(spec_join(root, new_name)).game]
                == disk.files[GameSettings::at(spec_join(root, name)).game]
            &&& after.files[GameSettings::at(spec_join(root, new_name)).settings]
                == disk.files[GameSettings::at(spec_join(root, name)).settings]
        },
{
    let from = spec_join(root, name);
    let to = spec_join(root, new_name);
    lemma_run_one(disk, FileOpModel::Rename { from, to });
    lemma_files_inside(to, from);
    lemma_files_inside(from, to);
}

/// Deleting leaves nothing of the profile behind, and touches nothing
/// outside the profile's directory. Where there is no such directory the
/// deletion fails.
pub proof fn lemma_delete_removes_files(disk: Disk, root: Seq<char>, name: Seq<char>)
    ensures
        ({
            let dir = spec_join(root, name);
            match disk.run(seq![FileOpModel::RemoveDirAll { path: dir }]) {
                Some(after) => {
                    &&& disk.is_dir(dir)
                    &&& !after.is_dir(dir)
                    &&& forall|path: Seq<char>| under(path, dir) ==> !after.has(path)
                    &&& forall|path: Seq<char>|
                        !under(path, dir) ==> after.has(path) == disk.has(path) && (disk.has(path)
                            ==> after.files[path] == disk.files[path])
                },
                None => !disk.is_dir(dir),
            }
        }),
{
    lemma_run_one(disk, FileOpModel::RemoveDirAll { path: spec_join(root, name) });
}

/// Import writes what export packed. Given the entries of an exported
/// archive as they were handed to the archive library, an import that finds
/// a name writes both settings files byte for byte into the new profile's
/// directory, named after the archive where that name is free and by the
/// first free generated name else. Whether the archive library gives back
/// the entries it was handed is not part of this statement.
pub proof fn lemma_import_of_export(
    stem: Seq<char>,
    game: Seq<u8>,
    settings: Seq<u8>,
    root: Seq<char>,
    profiles: Seq<ProfileModel>,
)
    requires
        spec_import_name(stem, profiles) is Some,
    ensures
        ({
            let name = spec_import_name(stem, profiles)->0;
            let stored = GameSettings::at(spec_join(root, name));
            spec_from_archive(stem, Some(spec_export_entries(game, settings)), root, profiles)
                == Ok::<_, Error>(
                (
                    fresh(name),
                    seq![
                        FileOpModel::CreateDirAll { path: spec_join(root, name) },
                        FileOpModel::Write { path: stored.game, content: game },
                        FileOpModel::Write { path: stored.settings, content: settings },
                    ],
                ),
            )
        }),
{
    let name = spec_import_name(stem, profiles)->0;
    let dir = spec_join(root, name);
    let stored = GameSettings::at(dir);
    lemma_settings_names_safe();
    assert(spec_extract(dir, spec_export_entries(game, settings)) =~= seq![
        FileOpModel::CreateDirAll { path: dir },
        FileOpModel::Write { path: stored.game, content: game },
        FileOpModel::Write { path: stored.settings, content: settings },
    ]);
}

/// Whether `path` lies inside `dir` by its parts: it is `dir`, a separator,
/// and a name that is not empty, does not begin with a separator and has no
/// `..` part.
pub open spec fn inside(path: Seq<char>, dir: Seq<char>) -> bool {
    exists|name: Seq<char>| safe_name(encode_utf8(name)) && path == spec_join(dir, name)
}

/// Whether the operation writes a file that lies inside `dir`.
pub open spec fn writes_inside(op: FileOpModel, dir: Seq<char>) -> bool {
    match op {
        FileOpModel::Write { path, .. } => inside(path, dir),
        _ => false,
    }
}

/// An import stays inside. Whatever the archive holds, a successful import
/// makes the new profile's directory and then only writes files that lie
/// inside it; a failed import asks nothing of the disk.
pub proof fn lemma_import_stays_inside(
    stem: Seq<char>,
    unpacked: Option<Seq<EntryModel>>,
    root: Seq<char>,
    profiles: Seq<ProfileModel>,
)
    ensures
        spec_from_archive(stem, unpacked, root, profiles) matches Ok((profile, ops)) ==> {
            &&& ops.len() > 0
            &&& ops[0] == (FileOpModel::CreateDirAll { path: spec_join(root, profile.name) })
            &&& forall|i: int|
                1 <= i < ops.len() ==> writes_inside(
                    #[trigger] ops[i],
                    spec_join(root, profile.name),
                )
        },
{
    if spec_from_archive(stem, unpacked, root, profiles) is Ok {
        let name = spec_import_name(stem, profiles)->0;
        let entries = unpacked->0;
        let dir = spec_join(root, name);
        let ops = spec_extract(dir, entries);
        assert forall|i: int| 1 <= i < ops.len() implies writes_inside(#[trigger] ops[i], dir) by {
            let entry = entries[i - 1];
            assert(ops[i] == (FileOpModel::Write {
                path: spec_join(dir, entry.0),
                content: entry.1,
            }));
            assert(safe_name(encode_utf8(entry.0)));
        }
    }
}

/// A swap needs the stored files. Where one of the profile's two files is
/// missing, the swap fails on the disk, whatever else is there.
pub proof fn lemma_swap_needs_stored_files(disk: Disk, dir: Seq<char>, active_dir: Seq<char>)
    requires
        !disk.has(GameSettings::at(dir).game) || !disk.has(GameSettings::at(dir).settings),
    ensures
        disk.run(spec_swap(dir, GameSettings::at(active_dir))) is None,
{
    let stored = GameSettings::at(dir);
    let active = GameSettings::at(active_dir);
    lemma_files_differ(active_dir, dir);
    let ops = spec_swap(dir, active);
    let rest1 = ops.drop_first();
    let rest2 = rest1.drop_first();
    let rest3 = rest2.drop_first();
    assert(rest1[0] == ops[1]);
    assert(rest2[0] == ops[2]);
    assert(rest3[0] == ops[3]);
    if disk.apply(ops[0]) is Some {
        let d1 = disk.apply(ops[0])->0;
        assert(d1.files.dom() =~= disk.files.dom());
        if d1.apply(ops[1]) is Some {
            let d2 = d1.apply(ops[1])->0;
            assert(d2.files.dom() =~= disk.files.dom());
            if d2.apply(ops[2]) is Some {
                let d3 = d2.apply(ops[2])->0;
                assert(!d3.has(stored.settings));
                assert(d3.apply(ops[3]) is None);
                assert(d3.run(rest3) is None);
            }
            assert(d2.run(rest2) is None);
        }
        assert(d1.run(rest1) is None);
    }
}

/// A binding made by option reads back as that option. Whatever the
/// option, the binding it stands for can be shown; and where the option is
/// `Disabled`, `Default` or the name of a champion, what shows the binding is
/// the option itself.
pub proof fn lemma_binding_reads_back(option: Seq<char>)
    ensures
        bindable(spec_binding(option)),
        spec_binding(option) is Some ==> spec_shown(spec_binding(option)) == Some(option),
        option == "Disabled"@ ==> spec_shown(spec_binding(option)) == Some(option),
{
    reveal_strlit("Disabled");
    reveal_strlit("Default");
    lemma_name_round_trip(option);
}

} // verus!

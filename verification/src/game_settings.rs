//! The pair of files that the game reads its configuration from.

use crate::config::Config;
use crate::error::Error;
use crate::fs::Disk;
use crate::fs::FileOp;
use crate::fs::FileOpModel;
use crate::fs::FileState;
use crate::ini_file::ini_parsed;
use crate::ini_file::spec_reset_text;
use crate::ini_file::without_resolution;
use crate::ini_file::IniError;
use crate::ini_file::LineEnd;
use crate::fs::op_models;
use crate::fs::under;
use crate::text::find;
use crate::text::occurs_at;
use crate::text::join;
use crate::text::lemma_find_is;
use crate::text::spec_find;
use crate::text::spec_join;
use vstd::prelude::*;
use vstd::slice::slice_subrange;
use vstd::slice::slice_to_vec;
use vstd::utf8::encode_utf8;

verus! {

/// What was found on disk where a pair of settings files is expected.
#[derive(Debug, Clone, Copy, PartialEq, Eq, Structural)]
pub struct Probe {
    /// `game.cfg` exists.
    pub game: bool,
    /// `PersistedSettings.json` exists.
    pub settings: bool,
    /// `game.cfg` carries the read-only attribute.
    pub readonly: bool,
}

/// The two settings files of one directory.
#[derive(Debug, Clone, PartialEq, Eq)]
pub struct GameSettings {
    /// The primary file, `game.cfg`.
    pub game: String,
    /// The secondary file, `PersistedSettings.json`.
    pub settings: String,
}

/// A [`GameSettings`] as a mathematical value.
pub struct GameSettingsModel {
    pub game: Seq<char>,
    pub settings: Seq<char>,
}

impl View for GameSettings {
    type V = GameSettingsModel;

    open spec fn view(&self) -> GameSettingsModel {
        GameSettingsModel { game: self.game@, settings: self.settings@ }
    }
}

/// The token that parts the two file bodies in a shared blob.
pub open spec fn spec_separator() -> Seq<char> {
    "<lcm-seperator>"@
}

/// The two halves of a shared blob: what stands before the first separator
/// and what stands after it. `None` where the blob holds no separator.
pub open spec fn spec_split(blob: Seq<u8>, separator: Seq<u8>) -> Option<(Seq<u8>, Seq<u8>)> {
    match spec_find(blob, separator) {
        Some(at) => Some(
            (blob.subrange(0, at), blob.subrange(at + separator.len(), blob.len() as int)),
        ),
        None => None,
    }
}

impl GameSettings {
    /// The settings files of the directory `dir`.
    pub open spec fn at(dir: Seq<char>) -> GameSettingsModel {
        GameSettingsModel {
            game: spec_join(dir, "game.cfg"@),
            settings: spec_join(dir, "PersistedSettings.json"@),
        }
    }

    /// The settings files of `dir`, present or not.
    pub fn located(dir: &str) -> (found: GameSettings)
        ensures
            found@ == Self::at(dir@),
    {
        GameSettings { game: join(dir, "game.cfg"), settings: join(dir, "PersistedSettings.json") }
    }

    /// The settings files of `folder_path`, provided both were seen there.
    pub fn from_path(folder_path: &str, seen: Probe) -> (found: Result<GameSettings, Error>)
        ensures
            match found {
                Ok(files) => seen.game && seen.settings && files@ == Self::at(folder_path@),
                Err(error) => error == Error::WrongPath && !(seen.game && seen.settings),
            },
    {
        if seen.game && seen.settings {
            return Ok(Self::located(folder_path));
        }
        Err(Error::WrongPath)
    }

    /// The settings files of the configured install directory, which live in
    /// its `Config` directory. `seen` is what was found there.
    pub fn from_config(config: &Config, seen: Probe) -> (found: Result<GameSettings, Error>)
        ensures
            match found {
                Ok(files) => config@ is Some && seen.game && seen.settings && files@ == Self::at(
                    spec_join(config@->0, "Config"@),
                ),
                Err(error) => match config@ {
                    Some(_) => error == Error::WrongPath && !(seen.game && seen.settings),
                    None => error == Error::MissingPath,
                },
            },
    {
        match config.path() {
            Some(install) => {
                let dir = join(install.as_str(), "Config");
                Self::from_path(dir.as_str(), seen)
            },
            None => Err(Error::MissingPath),
        }
    }

    /// What [`GameSettings::from_string`] writes for a blob.
    pub open spec fn spec_from_string(dir: Seq<char>, blob: Seq<u8>) -> Option<Seq<FileOpModel>> {
        match spec_split(blob, encode_utf8(spec_separator())) {
            Some((game, settings)) => Some(
                seq![
                    FileOpModel::Write { path: Self::at(dir).game, content: game },
                    FileOpModel::Write { path: Self::at(dir).settings, content: settings },
                ],
            ),
            None => None,
        }
    }

    /// Unpacks a shared blob into `dir`: the part before the first separator
    /// becomes `game.cfg`, the part after it `PersistedSettings.json`.
    /// A blob without a separator is refused.
    pub fn from_string(dir: &str, content: &str) -> (unpacked: Result<
        (GameSettings, Vec<FileOp>),
        Error,
    >)
        ensures
            match unpacked {
                Ok((files, ops)) => files@ == Self::at(dir@) && Some(op_models(ops@))
                    == Self::spec_from_string(dir@, encode_utf8(content@)),
                Err(error) => error == Error::Import && Self::spec_from_string(
                    dir@,
                    encode_utf8(content@),
                ) is None,
            },
    {
        let blob = content.as_bytes();
        let separator = Self::seperator().as_bytes();
        match find(blob, separator) {
            None => Err(Error::Import),
            Some(at) => {
                let total = blob.len();
                let game = slice_to_vec(slice_subrange(blob, 0, at));
                let settings = slice_to_vec(
                    slice_subrange(blob, at + separator.len(), total),
                );
                let files = Self::located(dir);
                let mut ops: Vec<FileOp> = Vec::new();
                ops.push(FileOp::Write { path: files.game.clone(), content: game });
                ops.push(FileOp::Write { path: files.settings.clone(), content: settings });
                Ok((files, ops))
            },
        }
    }

    /// Points this value at the settings files of `dir`.
    pub fn update_paths(&mut self, dir: &str)
        ensures
            final(self)@ == Self::at(dir@),
    {
        self.game = join(dir, "game.cfg");
        self.settings = join(dir, "PersistedSettings.json");
    }

    fn set_readonly_path(path: &String, value: bool) -> (op: FileOp)
        ensures
            op@ == (FileOpModel::SetReadonly { path: path@, value }),
    {
        FileOp::SetReadonly { path: path.clone(), value }
    }

    /// What [`GameSettings::set_readonly`] asks of the disk.
    pub open spec fn spec_set_readonly(files: GameSettingsModel, value: bool) -> Seq<FileOpModel> {
        seq![
            FileOpModel::SetReadonly { path: files.game, value },
            FileOpModel::SetReadonly { path: files.settings, value },
        ]
    }

    /// Sets or clears the read-only attribute on both files, the primary
    /// file first.
    pub fn set_readonly(&self, value: bool) -> (ops: Vec<FileOp>)
        ensures
            op_models(ops@) == Self::spec_set_readonly(self@, value),
    {
        let mut ops: Vec<FileOp> = Vec::new();
        ops.push(Self::set_readonly_path(&self.game, value));
        ops.push(Self::set_readonly_path(&self.settings, value));
        ops
    }

    /// The operations that replace the primary file's content while keeping
    /// the lock as it was: unlock both files, write, lock both as before.
    pub open spec fn spec_rewrite(
        files: GameSettingsModel,
        content: Seq<u8>,
        readonly: bool,
    ) -> Seq<FileOpModel> {
        Self::spec_set_readonly(files, false) + seq![
            FileOpModel::Write { path: files.game, content },
        ] + Self::spec_set_readonly(files, readonly)
    }

    /// Replaces the primary file's content: both files are unlocked, the
    /// file is written, and both are locked again if `readonly` says that
    /// they were.
    pub fn rewrite(&self, content: Vec<u8>, readonly: bool) -> (ops: Vec<FileOp>)
        ensures
            op_models(ops@) == Self::spec_rewrite(self@, content@, readonly),
    {
        let mut ops: Vec<FileOp> = Vec::new();
        ops.push(Self::set_readonly_path(&self.game, false));
        ops.push(Self::set_readonly_path(&self.settings, false));
        ops.push(FileOp::Write { path: self.game.clone(), content });
        ops.push(Self::set_readonly_path(&self.game, readonly));
        ops.push(Self::set_readonly_path(&self.settings, readonly));
        ops
    }

    /// Takes the window size out of the primary file, whose present text is
    /// `game` and whose lock is `readonly`, so that the game picks a size of
    /// its own: the keys `Width` and `Height` of the section `General` are
    /// deleted, the document is written out with the given line end, and the
    /// file is put in place as [`GameSettings::rewrite`] says. A text that is
    /// no INI document is refused and nothing is asked of the disk.
    pub fn reset_resolution(&self, game: &str, readonly: bool, end: LineEnd) -> (reset: Result<
        Vec<FileOp>,
        IniError,
    >)
        ensures
            match reset {
                Ok(ops) => ini_parsed(game@) is Some && op_models(ops@) == Self::spec_rewrite(
                    self@,
                    spec_reset_text(game@, end),
                    readonly,
                ),
                Err(IniError::Parse) => ini_parsed(game@) is None,
                Err(IniError::Io) => ini_parsed(game@) is Some,
            },
    {
        match without_resolution(game, end) {
            Ok(content) => Ok(self.rewrite(content, readonly)),
            Err(error) => Err(error),
        }
    }

    /// The token that parts the two file bodies in a shared blob.
    pub fn seperator() -> (token: &'static str)
        ensures
            token@ == spec_separator(),
    {
        "<lcm-seperator>"
    }

    /// Packs the bodies of the two files into one blob for sharing.
    pub fn to_paste_string(game: &str, settings: &str) -> (blob: String)
        ensures
            blob@ == game@ + spec_separator() + settings@,
    {
        let mut blob = String::from_str(game);
        blob.append(Self::seperator());
        blob.append(settings);
        blob
    }
}

/// Setting the lock changes the read-only attribute of both files and
/// nothing else: where both files exist it succeeds, and afterwards both
/// carry the new attribute with their contents untouched.
pub proof fn lemma_lock_sets_both(disk: Disk, files: GameSettingsModel, value: bool)
    requires
        disk.has(files.game),
        disk.has(files.settings),
    ensures
        disk.run(GameSettings::spec_set_readonly(files, value)) matches Some(after) && {
            &&& after.files.dom() == disk.files.dom()
            &&& after.files[files.game] == (FileState {
                content: disk.files[files.game].content,
                readonly: value,
            })
            &&& after.files[files.settings] == (FileState {
                content: disk.files[files.settings].content,
                readonly: value,
            })
            &&& forall|path: Seq<char>|
                path != files.game && path != files.settings ==> after.files[path]
                    == disk.files[path]
        },
{
    let ops = GameSettings::spec_set_readonly(files, value);
    let first = disk.apply(ops[0])->0;
    assert(ops.drop_first()[0] == ops[1]);
    assert(ops.drop_first().drop_first() =~= Seq::<FileOpModel>::empty());
    let second = first.apply(ops[1])->0;
    assert(first.run(ops.drop_first()) == second.run(ops.drop_first().drop_first()));
    assert(second.files.dom() =~= disk.files.dom());
}

/// The lock is idempotent. Setting it to the same value a second time
/// leaves the disk, file permissions included, exactly as the first setting
/// left it.
pub proof fn lemma_lock_idempotent(disk: Disk, files: GameSettingsModel, value: bool)
    ensures
        disk.run(GameSettings::spec_set_readonly(files, value)) matches Some(after) ==> after.run(
            GameSettings::spec_set_readonly(files, value),
        ) == Some(after),
{
    let ops = GameSettings::spec_set_readonly(files, value);
    if disk.run(ops) is Some {
        assert(ops.drop_first()[0] == ops[1]);
        assert(ops.drop_first().drop_first() =~= Seq::<FileOpModel>::empty());
        let first = disk.apply(ops[0])->0;
        let after = first.apply(ops[1])->0;
        assert(first.run(ops.drop_first()) == after.run(ops.drop_first().drop_first()));
        assert(disk.run(ops) == Some(after));
        let again = after.apply(ops[0])->0;
        assert(again.files =~= after.files);
        let twice = again.apply(ops[1])->0;
        assert(twice.files =~= after.files);
        assert(again.run(ops.drop_first()) == twice.run(ops.drop_first().drop_first()));
    }
}

/// A path keeps the last character of its last part.
pub proof fn lemma_join_last(base: Seq<char>, part: Seq<char>)
    requires
        part.len() > 0,
    ensures
        spec_join(base, part).len() > 0,
        spec_join(base, part).last() == part.last(),
{
}

/// The settings files of a directory lie inside it, and moving the
/// directory moves them to the settings files of the new place.
pub proof fn lemma_files_inside(dir: Seq<char>, moved: Seq<char>)
    ensures
        under(GameSettings::at(dir).game, dir),
        under(GameSettings::at(dir).settings, dir),
        Disk::before_rename(GameSettings::at(dir).game, moved, dir) == GameSettings::at(
            moved,
        ).game,
        Disk::before_rename(GameSettings::at(dir).settings, moved, dir) == GameSettings::at(
            moved,
        ).settings,
{
    let game = GameSettings::at(dir).game;
    let settings = GameSettings::at(dir).settings;
    assert(game.subrange(0, dir.len() as int) =~= dir);
    assert(settings.subrange(0, dir.len() as int) =~= dir);
    assert(Disk::before_rename(game, moved, dir) =~= GameSettings::at(moved).game);
    assert(Disk::before_rename(settings, moved, dir) =~= GameSettings::at(moved).settings);
}

/// A primary file is never a secondary file, whatever the directories.
pub proof fn lemma_files_differ(first: Seq<char>, second: Seq<char>)
    ensures
        GameSettings::at(first).game != GameSettings::at(second).settings,
{
    reveal_strlit("game.cfg");
    reveal_strlit("PersistedSettings.json");
    lemma_join_last(first, "game.cfg"@);
    lemma_join_last(second, "PersistedSettings.json"@);
    assert("game.cfg"@.last() == 'g');
    assert("PersistedSettings.json"@.last() == 'n');
}

/// The encoding of a text in two parts is the encodings of the parts, one
/// after the other.
pub proof fn lemma_encode_concat(first: Seq<char>, second: Seq<char>)
    ensures
        encode_utf8(first + second) == encode_utf8(first) + encode_utf8(second),
    decreases first.len(),
{
    if first.len() == 0 {
        assert(first + second =~= second);
        assert(encode_utf8(first) + encode_utf8(second) =~= encode_utf8(second));
    } else {
        assert((first + second)[0] == first[0]);
        assert((first + second).drop_first() =~= first.drop_first() + second);
        lemma_encode_concat(first.drop_first(), second);
        assert(encode_utf8(first + second) =~= encode_utf8(first) + encode_utf8(second));
    }
}

/// A blob gives back what went into it. Where the separator does not begin
/// anywhere inside the first body, splitting the blob made of two bodies
/// gives exactly these two bodies.
pub proof fn lemma_blob_round_trip(game: Seq<char>, settings: Seq<char>)
    requires
        forall|at: int|
            0 <= at < encode_utf8(game).len() ==> !occurs_at(
                encode_utf8(game) + encode_utf8(spec_separator()),
                encode_utf8(spec_separator()),
                at,
            ),
    ensures
        spec_split(
            encode_utf8(game + spec_separator() + settings),
            encode_utf8(spec_separator()),
        ) == Some((encode_utf8(game), encode_utf8(settings))),
{
    let first = encode_utf8(game);
    let token = encode_utf8(spec_separator());
    let second = encode_utf8(settings);
    let blob = encode_utf8(game + spec_separator() + settings);
    lemma_encode_concat(game + spec_separator(), settings);
    lemma_encode_concat(game, spec_separator());
    assert(blob == first + token + second);
    let here = first.len() as int;
    assert(blob.subrange(here, here + token.len()) =~= token);
    assert forall|earlier: int| 0 <= earlier < here implies !occurs_at(blob, token, earlier) by {
        if occurs_at(blob, token, earlier) {
            let inside = (first + token).subrange(earlier, earlier + token.len());
            let found = blob.subrange(earlier, earlier + token.len());
            assert forall|i: int| 0 <= i < token.len() implies inside[i] == found[i] by {
                assert(inside[i] == (first + token)[earlier + i]);
                assert(found[i] == blob[earlier + i]);
                assert(blob[earlier + i] == (first + token)[earlier + i]);
            }
            assert(inside =~= found);
            assert(occurs_at(first + token, token, earlier));
        }
    }
    lemma_find_is(blob, token, here);
    assert(blob.subrange(0, here) =~= first);
    assert(blob.subrange(here + token.len(), blob.len() as int) =~= second);
}

} // verus!

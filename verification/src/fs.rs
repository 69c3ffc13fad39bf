//! File-system operations as values.
//!
//! The library never touches the disk. Whatever it decides to do to the disk
//! it hands back as a list of [`FileOp`]s, to be carried out in order by the
//! caller. What an operation means is fixed here by a mathematical model of
//! the disk, [`Disk`], so that statements about files can be proved.

use vstd::prelude::*;

verus! {

/// One step to carry out on the disk.
#[derive(Debug, Clone, PartialEq, Eq)]
pub enum FileOp {
    /// Set or clear the read-only attribute of an existing file.
    SetReadonly { path: String, value: bool },
    /// Copy a file over another, contents and permissions.
    Copy { from: String, to: String },
    /// Make sure a directory and its parents exist.
    CreateDirAll { path: String },
    /// Move a directory, with all it holds, to a new place.
    Rename { from: String, to: String },
    /// Remove a directory with all it holds.
    RemoveDirAll { path: String },
    /// Create or overwrite a file with the given bytes, making the
    /// directories above it where they are missing.
    Write { path: String, content: Vec<u8> },
}

/// A [`FileOp`] as a mathematical value.
pub enum FileOpModel {
    SetReadonly { path: Seq<char>, value: bool },
    Copy { from: Seq<char>, to: Seq<char> },
    CreateDirAll { path: Seq<char> },
    Rename { from: Seq<char>, to: Seq<char> },
    RemoveDirAll { path: Seq<char> },
    Write { path: Seq<char>, content: Seq<u8> },
}

impl View for FileOp {
    type V = FileOpModel;

    open spec fn view(&self) -> FileOpModel {
        match *self {
            FileOp::SetReadonly { path, value } => FileOpModel::SetReadonly { path: path@, value },
            FileOp::Copy { from, to } => FileOpModel::Copy { from: from@, to: to@ },
            FileOp::CreateDirAll { path } => FileOpModel::CreateDirAll { path: path@ },
            FileOp::Rename { from, to } => FileOpModel::Rename { from: from@, to: to@ },
            FileOp::RemoveDirAll { path } => FileOpModel::RemoveDirAll { path: path@ },
            FileOp::Write { path, content } => FileOpModel::Write { path: path@, content: content@ },
        }
    }
}

/// The models of a list of operations, in order.
pub open spec fn op_models(ops: Seq<FileOp>) -> Seq<FileOpModel> {
    ops.map_values(|op: FileOp| op@)
}

/// What the model knows of one file.
pub struct FileState {
    pub content: Seq<u8>,
    pub readonly: bool,
}

/// The disk as the library sees it: the files that exist, by path, and the
/// directories that were made. A directory also exists wherever a file
/// lives in it.
pub struct Disk {
    pub files: Map<Seq<char>, FileState>,
    pub dirs: Set<Seq<char>>,
}

/// Whether `path` names something inside the directory `dir`.
pub open spec fn under(path: Seq<char>, dir: Seq<char>) -> bool {
    &&& path.len() > dir.len()
    &&& path.subrange(0, dir.len() as int) == dir
    &&& path[dir.len() as int] == '/'
}

impl Disk {
    /// Whether a file exists at `path`.
    pub open spec fn has(self, path: Seq<char>) -> bool {
        self.files.dom().contains(path)
    }

    /// Whether a directory exists at `path`.
    pub open spec fn is_dir(self, path: Seq<char>) -> bool {
        self.dirs.contains(path) || exists|inner: Seq<char>| self.has(inner) && under(inner, path)
    }

    /// Whether a write to `path` would be refused because a read-only file is there.
    pub open spec fn locked(self, path: Seq<char>) -> bool {
        self.has(path) && self.files[path].readonly
    }

    /// The path that a file now at `path` had before `from` was moved to `to`.
    pub open spec fn before_rename(path: Seq<char>, from: Seq<char>, to: Seq<char>) -> Seq<char> {
        from + path.subrange(to.len() as int, path.len() as int)
    }

    /// The disk after `op`, or `None` where the operation fails and the disk
    /// stays as it was. An attribute can only be set on a file that exists, a
    /// copy needs its source and a target that is not read-only, a write a
    /// target that is not read-only, and a directory can only be moved or
    /// removed where it exists.
    pub open spec fn apply(self, op: FileOpModel) -> Option<Disk> {
        match op {
            FileOpModel::SetReadonly { path, value } => {
                if self.has(path) {
                    Some(
                        Disk {
                            files: self.files.insert(
                                path,
                                FileState { content: self.files[path].content, readonly: value },
                            ),
                            ..self
                        },
                    )
                } else {
                    None
                }
            },
            FileOpModel::Copy { from, to } => {
                if self.has(from) && !self.locked(to) {
                    Some(Disk { files: self.files.insert(to, self.files[from]), ..self })
                } else {
                    None
                }
            },
            FileOpModel::CreateDirAll { path } => Some(
                Disk { dirs: self.dirs.insert(path), ..self },
            ),
            FileOpModel::Rename { from, to } => {
                if !self.is_dir(from) {
                    None
                } else if from == to {
                    Some(self)
                } else if exists|p: Seq<char>| self.has(p) && under(p, to) {
                    None
                } else {
                    Some(
                        Disk {
                            files: Map::new(
                                |p: Seq<char>|
                                    (self.has(p) && !under(p, from)) || (under(p, to) && self.has(
                                        Self::before_rename(p, from, to),
                                    )),
                                |p: Seq<char>|
                                    if under(p, to) {
                                        self.files[Self::before_rename(p, from, to)]
                                    } else {
                                        self.files[p]
                                    },
                            ),
                            dirs: Set::new(
                                |d: Seq<char>|
                                    d == to || (self.dirs.contains(d) && d != from && !under(
                                        d,
                                        from,
                                    )) || (under(d, to) && self.dirs.contains(
                                        Self::before_rename(d, from, to),
                                    )),
                            ),
                        },
                    )
                }
            },
            FileOpModel::RemoveDirAll { path } => {
                if self.is_dir(path) {
                    Some(
                        Disk {
                            files: Map::new(
                                |p: Seq<char>| self.has(p) && !under(p, path),
                                |p: Seq<char>| self.files[p],
                            ),
                            dirs: Set::new(
                                |d: Seq<char>|
                                    self.dirs.contains(d) && d != path && !under(d, path),
                            ),
                        },
                    )
                } else {
                    None
                }
            },
            FileOpModel::Write { path, content } => {
                if self.locked(path) {
                    None
                } else {
                    Some(
                        Disk {
                            files: self.files.insert(path, FileState { content, readonly: false }),
                            ..self
                        },
                    )
                }
            },
        }
    }

    /// The disk after all of `ops` in order, or `None` as soon as one fails.
    pub open spec fn run(self, ops: Seq<FileOpModel>) -> Option<Disk>
        decreases ops.len(),
    {
        if ops.len() == 0 {
            Some(self)
        } else {
            match self.apply(ops[0]) {
                Some(next) => next.run(ops.drop_first()),
                None => None,
            }
        }
    }
}

/// Running two lists one after the other is running their concatenation.
pub proof fn lemma_run_concat(disk: Disk, first: Seq<FileOpModel>, second: Seq<FileOpModel>)
    ensures
        disk.run(first + second) == match disk.run(first) {
            Some(mid) => mid.run(second),
            None => None,
        },
    decreases first.len(),
{
    if first.len() == 0 {
        assert(first + second =~= second);
    } else {
        assert((first + second)[0] == first[0]);
        assert((first + second).drop_first() =~= first.drop_first() + second);
        match disk.apply(first[0]) {
            Some(next) => {
                lemma_run_concat(next, first.drop_first(), second);
            },
            None => {},
        }
    }
}

/// A single operation runs as it applies.
pub proof fn lemma_run_one(disk: Disk, op: FileOpModel)
    ensures
        disk.run(seq![op]) == disk.apply(op),
{
    let ops = seq![op];
    assert(ops[0] == op);
    assert(ops.drop_first() =~= Seq::<FileOpModel>::empty());
    match disk.apply(op) {
        Some(next) => {
            assert(next.run(ops.drop_first()) == Some(next));
        },
        None => {},
    }
}

} // verus!

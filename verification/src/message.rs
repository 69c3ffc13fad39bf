//! What the application core is told.

use crate::error::Error;
use crate::game_settings::Probe;
use crate::profile::Profile;
use crate::profile::ProfileModel;
use crate::websocket::Event;
use vstd::prelude::*;

verus! {

/// `std`'s `Clone` for `Result`. Nothing is claimed of the copy.
pub assume_specification<T, E>[ <Result<T, E> as Clone>::clone ](result: &Result<T, E>) -> Result<
    T,
    E,
>
    where
        E: Clone,
        T: Clone,
;

/// A swap that was asked for: the profile whose files go in place of the
/// active ones, and whether the user asked for it by hand.
#[derive(Debug, Clone, PartialEq, Eq)]
pub struct Swap {
    pub profile: String,
    pub manual: bool,
}

/// A [`Swap`] as a mathematical value.
pub struct SwapModel {
    pub profile: Seq<char>,
    pub manual: bool,
}

impl View for Swap {
    type V = SwapModel;

    open spec fn view(&self) -> SwapModel {
        SwapModel { profile: self.profile@, manual: self.manual }
    }
}

/// An install directory that the user picked, with what was found in its
/// `Config` directory.
#[derive(Debug, Clone, PartialEq, Eq)]
pub struct Located {
    pub path: String,
    pub seen: Probe,
}

/// A [`Located`] as a mathematical value.
pub struct LocatedModel {
    pub path: Seq<char>,
    pub seen: Probe,
}

impl View for Located {
    type V = LocatedModel;

    open spec fn view(&self) -> LocatedModel {
        LocatedModel { path: self.path@, seen: self.seen }
    }
}

/// An archive that the user picked for import: its file name without the
/// extension, and its bytes.
#[derive(Debug, Clone, PartialEq, Eq)]
pub struct Archive {
    pub stem: String,
    pub bytes: Vec<u8>,
}

/// An [`Archive`] as a mathematical value.
pub struct ArchiveModel {
    pub stem: Seq<char>,
    pub bytes: Seq<u8>,
}

impl View for Archive {
    type V = ArchiveModel;

    open spec fn view(&self) -> ArchiveModel {
        ArchiveModel { stem: self.stem@, bytes: self.bytes@ }
    }
}

/// An export that the user confirmed: where the archive goes, the profile,
/// and the bodies of the profile's two stored files.
#[derive(Debug, Clone, PartialEq, Eq)]
pub struct Export {
    pub dir: String,
    pub profile: Profile,
    pub game: Vec<u8>,
    pub settings: Vec<u8>,
}

/// An [`Export`] as a mathematical value.
pub struct ExportModel {
    pub dir: Seq<char>,
    pub profile: ProfileModel,
    pub game: Seq<u8>,
    pub settings: Seq<u8>,
}

impl View for Export {
    type V = ExportModel;

    open spec fn view(&self) -> ExportModel {
        ExportModel {
            dir: self.dir@,
            profile: self.profile@,
            game: self.game@,
            settings: self.settings@,
        }
    }
}

/// Everything that can happen to the application: what the user does, how a
/// task ended, what the watcher reports.
#[derive(Debug, Clone, PartialEq, Eq)]
pub enum Message {
    /// The user wants to pick the install directory.
    FindLocation,
    /// The install directory was picked, or the picker was closed.
    SetLocation(Result<Located, Error>),
    /// The user switched the read-only lock.
    SetReadonly(bool),
    /// The user wants a new profile from the active files.
    AddProfile,
    /// The user wants the named profile gone.
    RemoveProfile(String),
    /// The user wants the profile's files in place of the active ones.
    UseProfile(Profile),
    /// The user starts editing the named profile's name.
    Edit(String),
    /// The user confirms the new name of the named profile.
    Confirm(String),
    /// The user gives up editing the named profile's name.
    Reset(String),
    /// The user typed: the named profile, and the edit buffer's new content.
    OnChange(String, String),
    /// The user wants the profile exported.
    Export(Profile),
    /// The export was confirmed, or the picker was closed.
    SetExport(Result<Export, Error>),
    /// The user wants to import an archive.
    Import,
    /// The archive was picked and read, or the picker was closed.
    SetImport(Result<Archive, Error>),
    /// The user picked a binding: the named profile, and the option.
    PickListChange(String, String),
    /// The user wants the link on the clipboard.
    CopyLink(String),
    /// The user wants a link for a blob: the blob, and the profile's name.
    GenerateLink(String, String),
    /// The paste service answered: the link, and the profile's name.
    PostLink(String, String),
    /// The paste service failed.
    PostLinkError(String),
    /// The user typed into the import field.
    ChangeLink(String),
    /// The user wants the blob behind the link imported.
    FetchLink(String),
    /// The paste service delivered a blob.
    AddProfileFromString(String),
    /// The paste service could not deliver.
    FetchError(Error),
    /// The watcher reports.
    WebsocketEvent(Event),
    /// A swap has ended: the swap, and whether every operation succeeded.
    Swapped(Swap, bool),
}

/// A [`Message`] as a mathematical value.
pub enum MessageModel {
    FindLocation,
    SetLocation(Result<LocatedModel, Error>),
    SetReadonly(bool),
    AddProfile,
    RemoveProfile(Seq<char>),
    UseProfile(ProfileModel),
    Edit(Seq<char>),
    Confirm(Seq<char>),
    Reset(Seq<char>),
    OnChange(Seq<char>, Seq<char>),
    Export(ProfileModel),
    SetExport(Result<ExportModel, Error>),
    Import,
    SetImport(Result<ArchiveModel, Error>),
    PickListChange(Seq<char>, Seq<char>),
    CopyLink(Seq<char>),
    GenerateLink(Seq<char>, Seq<char>),
    PostLink(Seq<char>, Seq<char>),
    PostLinkError(Seq<char>),
    ChangeLink(Seq<char>),
    FetchLink(Seq<char>),
    AddProfileFromString(Seq<char>),
    FetchError(Error),
    WebsocketEvent(Event),
    Swapped(SwapModel, bool),
}

impl View for Message {
    type V = MessageModel;

    open spec fn view(&self) -> MessageModel {
        match *self {
            Message::FindLocation => MessageModel::FindLocation,
            Message::SetLocation(found) => MessageModel::SetLocation(
                match found {
                    Ok(located) => Ok(located@),
                    Err(error) => Err(error),
                },
            ),
            Message::SetReadonly(value) => MessageModel::SetReadonly(value),
            Message::AddProfile => MessageModel::AddProfile,
            Message::RemoveProfile(name) => MessageModel::RemoveProfile(name@),
            Message::UseProfile(profile) => MessageModel::UseProfile(profile@),
            Message::Edit(name) => MessageModel::Edit(name@),
            Message::Confirm(name) => MessageModel::Confirm(name@),
            Message::Reset(name) => MessageModel::Reset(name@),
            Message::OnChange(name, typed) => MessageModel::OnChange(name@, typed@),
            Message::Export(profile) => MessageModel::Export(profile@),
            Message::SetExport(confirmed) => MessageModel::SetExport(
                match confirmed {
                    Ok(export) => Ok(export@),
                    Err(error) => Err(error),
                },
            ),
            Message::Import => MessageModel::Import,
            Message::SetImport(picked) => MessageModel::SetImport(
                match picked {
                    Ok(archive) => Ok(archive@),
                    Err(error) => Err(error),
                },
            ),
            Message::PickListChange(name, option) => MessageModel::PickListChange(name@, option@),
            Message::CopyLink(link) => MessageModel::CopyLink(link@),
            Message::GenerateLink(content, name) => MessageModel::GenerateLink(content@, name@),
            Message::PostLink(link, name) => MessageModel::PostLink(link@, name@),
            Message::PostLinkError(reason) => MessageModel::PostLinkError(reason@),
            Message::ChangeLink(link) => MessageModel::ChangeLink(link@),
            Message::FetchLink(link) => MessageModel::FetchLink(link@),
            Message::AddProfileFromString(content) => MessageModel::AddProfileFromString(content@),
            Message::FetchError(error) => MessageModel::FetchError(error),
            Message::WebsocketEvent(event) => MessageModel::WebsocketEvent(event),
            Message::Swapped(swap, done) => MessageModel::Swapped(swap@, done),
        }
    }
}

} // verus!

//! What can go wrong in a way the user is told about.

use vstd::prelude::*;

verus! {

/// Every failure that is shown to the user. All of them are recoverable:
/// the state keeps the last one until the next action.
#[derive(Debug, Clone, Copy, PartialEq, Eq, Structural)]
pub enum Error {
    /// A picker was closed without a choice.
    DialogClosed,
    /// The chosen install directory lacks one of the two settings files.
    WrongPath,
    /// No install directory has been configured.
    MissingPath,
    /// Another profile already carries the requested name.
    NameTaken,
    /// Writing a profile archive failed.
    ZipExport,
    /// Reading a profile archive failed.
    ZipImport,
    /// Another profile is already bound to the requested champion.
    ChampionTaken,
    /// A shared blob did not hold both settings files.
    Import,
    /// A profile's files could not be put in place of the active ones.
    Swap,
}

/// What the user reads for each error.
pub open spec fn spec_message(error: Error) -> Seq<char> {
    match error {
        Error::DialogClosed => "Dialog closed without choosing the folder"@,
        Error::WrongPath => "Wrong path (folder should look like \".../Riot Games/League of Legends/\""@,
        Error::MissingPath => "Missing path (choose the League of Legends install directory)"@,
        Error::NameTaken => "Name is taken"@,
        Error::ZipExport => "Error exporting profile"@,
        Error::ZipImport => "Error importing profile"@,
        Error::ChampionTaken => "Another profile already handles that champion"@,
        Error::Import => "Error importing a profile"@,
        Error::Swap => "Error putting the profile's settings in place"@,
    }
}

impl Error {
    /// What the user reads for this error.
    pub fn message(&self) -> (text: &'static str)
        ensures
            text@ == spec_message(*self),
    {
        match self {
            Error::DialogClosed => "Dialog closed without choosing the folder",
            Error::WrongPath => "Wrong path (folder should look like \".../Riot Games/League of Legends/\"",
            Error::MissingPath => "Missing path (choose the League of Legends install directory)",
            Error::NameTaken => "Name is taken",
            Error::ZipExport => "Error exporting profile",
            Error::ZipImport => "Error importing profile",
            Error::ChampionTaken => "Another profile already handles that champion",
            Error::Import => "Error importing a profile",
            Error::Swap => "Error putting the profile's settings in place",
        }
    }
}

} // verus!

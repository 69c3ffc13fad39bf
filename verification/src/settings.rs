//! The sidecar kept beside each stored profile.

use vstd::prelude::*;

verus! {

/// What a profile remembers apart from its two settings files: the champion
/// it is bound to and the link it was last shared under.
#[derive(Debug, Clone, PartialEq, Eq)]
pub struct Settings {
    /// `None`: never swapped in automatically. `Some(0)`: the default
    /// profile. `Some(id)`: swapped in when champion `id` is selected.
    pub champion: Option<u32>,
    /// The last link generated for the profile; empty when there is none.
    pub last_link: String,
}

/// A [`Settings`] as a mathematical value.
pub struct SettingsModel {
    pub champion: Option<u32>,
    pub last_link: Seq<char>,
}

impl View for Settings {
    type V = SettingsModel;

    open spec fn view(&self) -> SettingsModel {
        SettingsModel { champion: self.champion, last_link: self.last_link@ }
    }
}

impl Settings {
    /// The settings of a profile whose sidecar is missing or unreadable:
    /// no binding and no link.
    pub fn fallback() -> (settings: Settings)
        ensures
            settings@ == (SettingsModel { champion: None, last_link: Seq::empty() }),
    {
        Settings { champion: None, last_link: String::new() }
    }

    /// What a profile's settings are taken to be, given what reading its
    /// sidecar produced.
    pub fn or_fallback(read: Option<Settings>) -> (settings: Settings)
        ensures
            settings@ == match read {
                Some(found) => found@,
                None => SettingsModel { champion: None, last_link: Seq::empty() },
            },
    {
        match read {
            Some(found) => found,
            None => Self::fallback(),
        }
    }
}

} // verus!

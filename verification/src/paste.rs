//! What the library knows of the paste service.

use vstd::prelude::*;

verus! {

/// Where a shared blob is fetched from: the link with `.txt` behind it.
pub open spec fn spec_fetch_url(link: Seq<char>) -> Seq<char> {
    link + ".txt"@
}

/// The address that new pastes are posted to.
pub fn post_url() -> (url: &'static str)
    ensures
        url@ == "https://dpaste.com/api/"@,
{
    "https://dpaste.com/api/"
}

/// The name under which the client introduces itself to the service.
pub fn user_agent() -> (agent: &'static str)
    ensures
        agent@ == "League Config Manager - Settings manager for League of Legends"@,
{
    "League Config Manager - Settings manager for League of Legends"
}

/// The address that the blob behind `link` is fetched from.
pub fn fetch_url(link: &str) -> (url: String)
    ensures
        url@ == spec_fetch_url(link@),
{
    let mut url = String::from_str(link);
    url.append(".txt");
    url
}

} // verus!

//! Where an external link of a song leads.
use vstd::prelude::*;
use vstd::string::StringExecFns;

use crate::song::ExternalLinkKey;

verus! {

/// What activating an external link opens.
#[derive(Debug, Clone, PartialEq, Eq)]
pub enum LinkTarget {
    /// The link itself.
    Uri(String),
    /// A YouTube search for the given term, to be escaped into the query.
    YoutubeSearch(String),
}

/// Decides what the link of `key` with the value `value` opens.
pub fn link_target(key: ExternalLinkKey, value: String) -> (r: LinkTarget)
    ensures
        key == ExternalLinkKey::YoutubeSearchTerm ==> (r matches LinkTarget::YoutubeSearch(t) && t@ == value@),
        key != ExternalLinkKey::YoutubeSearchTerm ==> (r matches LinkTarget::Uri(u) && u@ == value@),
{
    match key {
        ExternalLinkKey::AppleMusicUrl | ExternalLinkKey::AudDUrl | ExternalLinkKey::SpotifyUrl => LinkTarget::Uri(value),
        ExternalLinkKey::YoutubeSearchTerm => LinkTarget::YoutubeSearch(value),
    }
}

/// The address of a YouTube search for a term already escaped for a query.
pub fn youtube_search_uri(escaped_term: &str) -> (r: String)
    ensures
        r@ == "https://www.youtube.com/results?search_query="@ + escaped_term@,
{
    proof {
        reveal_strlit("https://www.youtube.com/results?search_query=");
    }
    let mut uri = String::from_str("https://www.youtube.com/results?search_query=");
    uri.append(escaped_term);
    uri
}

} // verus!

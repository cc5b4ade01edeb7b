//! The song record produced by recognition.
use vstd::prelude::*;

use crate::text::str_eq;

verus! {

/// The services a song can link to.
#[derive(Debug, Clone, Copy, PartialEq, Eq, Structural)]
pub enum ExternalLinkKey {
    AppleMusicUrl,
    AudDUrl,
    SpotifyUrl,
    YoutubeSearchTerm,
}

/// One link per service at most.
#[derive(Debug, Clone, PartialEq, Eq)]
pub struct ExternalLinks {
    apple_music_url: Option<String>,
    aud_d_url: Option<String>,
    spotify_url: Option<String>,
    youtube_search_term: Option<String>,
}

/// The text of an optional string, if any.
pub open spec fn opt_view(s: Option<String>) -> Option<Seq<char>> {
    match s {
        Some(v) => Some(v@),
        None => None,
    }
}

/// A copy of an optional string.
pub fn copy_opt_string(s: &Option<String>) -> (r: Option<String>)
    ensures
        opt_view(r) == opt_view(*s),
{
    match s {
        Some(v) => Some(v.clone()),
        None => None,
    }
}

/// Whether two optional strings hold the same text, or are both absent.
pub fn opt_string_eq(a: &Option<String>, b: &Option<String>) -> (r: bool)
    ensures
        r == (opt_view(*a) == opt_view(*b)),
{
    match (a, b) {
        (Some(x), Some(y)) => str_eq(x.as_str(), y.as_str()),
        (None, None) => true,
        _ => false,
    }
}

impl ExternalLinks {
    /// The link stored for `key`, if any.
    pub closed spec fn spec_get(self, key: ExternalLinkKey) -> Option<Seq<char>> {
        match key {
            ExternalLinkKey::AppleMusicUrl => opt_view(self.apple_music_url),
            ExternalLinkKey::AudDUrl => opt_view(self.aud_d_url),
            ExternalLinkKey::SpotifyUrl => opt_view(self.spotify_url),
            ExternalLinkKey::YoutubeSearchTerm => opt_view(self.youtube_search_term),
        }
    }

    /// No links at all.
    pub fn new() -> (r: Self)
        ensures
            forall|k: ExternalLinkKey| #[trigger] r.spec_get(k) is None,
    {
        ExternalLinks {
            apple_music_url: None,
            aud_d_url: None,
            spotify_url: None,
            youtube_search_term: None,
        }
    }

    /// Sets the link for `key`, replacing any earlier one.
    pub fn insert(&mut self, key: ExternalLinkKey, value: String)
        ensures
            final(self).spec_get(key) == Some(value@),
            forall|k: ExternalLinkKey| k != key ==> #[trigger] final(self).spec_get(k) == old(self).spec_get(k),
    {
        match key {
            ExternalLinkKey::AppleMusicUrl => self.apple_music_url = Some(value),
            ExternalLinkKey::AudDUrl => self.aud_d_url = Some(value),
            ExternalLinkKey::SpotifyUrl => self.spotify_url = Some(value),
            ExternalLinkKey::YoutubeSearchTerm => self.youtube_search_term = Some(value),
        }
    }

    /// A copy of these links.
    pub fn duplicate(&self) -> (r: Self)
        ensures
            forall|k: ExternalLinkKey| #[trigger] r.spec_get(k) == self.spec_get(k),
    {
        ExternalLinks {
            apple_music_url: copy_opt_string(&self.apple_music_url),
            aud_d_url: copy_opt_string(&self.aud_d_url),
            spotify_url: copy_opt_string(&self.spotify_url),
            youtube_search_term: copy_opt_string(&self.youtube_search_term),
        }
    }

    /// Whether both hold the same link for every service.
    pub fn same_as(&self, other: &Self) -> (r: bool)
        ensures
            r == (forall|k: ExternalLinkKey| #[trigger] self.spec_get(k) == other.spec_get(k)),
    {
        let r = opt_string_eq(&self.apple_music_url, &other.apple_music_url)
            && opt_string_eq(&self.aud_d_url, &other.aud_d_url)
            && opt_string_eq(&self.spotify_url, &other.spotify_url)
            && opt_string_eq(&self.youtube_search_term, &other.youtube_search_term);
        proof {
            if !r {
                if opt_view(self.apple_music_url) != opt_view(other.apple_music_url) {
                    assert(self.spec_get(ExternalLinkKey::AppleMusicUrl) != other.spec_get(ExternalLinkKey::AppleMusicUrl));
                } else if opt_view(self.aud_d_url) != opt_view(other.aud_d_url) {
                    assert(self.spec_get(ExternalLinkKey::AudDUrl) != other.spec_get(ExternalLinkKey::AudDUrl));
                } else if opt_view(self.spotify_url) != opt_view(other.spotify_url) {
                    assert(self.spec_get(ExternalLinkKey::SpotifyUrl) != other.spec_get(ExternalLinkKey::SpotifyUrl));
                } else {
                    assert(self.spec_get(ExternalLinkKey::YoutubeSearchTerm) != other.spec_get(ExternalLinkKey::YoutubeSearchTerm));
                }
            }
        }
        r
    }

    /// The link for `key`, if any.
    pub fn get(&self, key: ExternalLinkKey) -> (r: Option<&String>)
        ensures
            match r {
                Some(v) => self.spec_get(key) == Some(v@),
                None => self.spec_get(key) is None,
            },
    {
        match key {
            ExternalLinkKey::AppleMusicUrl => self.apple_music_url.as_ref(),
            ExternalLinkKey::AudDUrl => self.aud_d_url.as_ref(),
            ExternalLinkKey::SpotifyUrl => self.spotify_url.as_ref(),
            ExternalLinkKey::YoutubeSearchTerm => self.youtube_search_term.as_ref(),
        }
    }
}

/// A song identifier made of the recognizing service's name and the
/// service's own identifier for the song.
#[derive(Debug, Clone, PartialEq, Eq)]
pub struct Uid {
    pub prefix: String,
    pub value: String,
}

/// Whether two songs hold the same values, field by field, texts compared
/// by their characters.
pub open spec fn same_song(a: Song, b: Song) -> bool {
    &&& a.id.prefix@ == b.id.prefix@
    &&& a.id.value@ == b.id.value@
    &&& a.title@ == b.title@
    &&& a.artist@ == b.artist@
    &&& a.album@ == b.album@
    &&& opt_view(a.release_date) == opt_view(b.release_date)
    &&& forall|k: ExternalLinkKey| #[trigger] a.external_links.spec_get(k) == b.external_links.spec_get(k)
    &&& opt_view(a.album_art_link) == opt_view(b.album_art_link)
    &&& opt_view(a.playback_link) == opt_view(b.playback_link)
    &&& opt_view(a.lyrics) == opt_view(b.lyrics)
    &&& a.last_heard == b.last_heard
    &&& a.is_newly_heard == b.is_newly_heard
}

impl Uid {
    /// The identifier `value` of the service `prefix`.
    pub fn from_prefixed(prefix: &str, value: &str) -> (r: Uid)
        ensures
            r.prefix@ == prefix@,
            r.value@ == value@,
    {
        Uid { prefix: prefix.to_owned(), value: value.to_owned() }
    }
}

/// What is known of a recognized song.
#[derive(Debug, Clone, PartialEq, Eq)]
pub struct Song {
    pub id: Uid,
    pub title: String,
    pub artist: String,
    pub album: String,
    /// In format of ISO-8601 (%Y-%m-%d)
    pub release_date: Option<String>,
    pub external_links: ExternalLinks,
    pub album_art_link: Option<String>,
    pub playback_link: Option<String>,
    pub lyrics: Option<String>,
    /// When the song was last heard, in seconds since the UNIX epoch.
    pub last_heard: Option<i64>,
    pub is_newly_heard: bool,
}

/// `song` is the one known by `title`, `artist` and the link `info_link` to
/// its page on AudD, which identifies it, with nothing else known of it.
pub open spec fn is_info_link_song(song: Song, title: Seq<char>, artist: Seq<char>, info_link: Seq<char>) -> bool {
    &&& song.id.prefix@ == "AudD"@
    &&& song.id.value@ == info_link
    &&& song.title@ == title
    &&& song.artist@ == artist
    &&& song.album@ == Seq::<char>::empty()
    &&& song.release_date is None
    &&& song.external_links.spec_get(ExternalLinkKey::AudDUrl) == Some(info_link)
    &&& song.external_links.spec_get(ExternalLinkKey::SpotifyUrl) is None
    &&& song.external_links.spec_get(ExternalLinkKey::AppleMusicUrl) is None
    &&& song.external_links.spec_get(ExternalLinkKey::YoutubeSearchTerm) is None
    &&& song.album_art_link is None
    &&& song.playback_link is None
    &&& song.lyrics is None
    &&& song.last_heard is None
    &&& !song.is_newly_heard
}

impl Song {
    /// A copy of this song.
    pub fn duplicate(&self) -> (r: Song)
        ensures
            same_song(*self, r),
    {
        Song {
            id: Uid { prefix: self.id.prefix.clone(), value: self.id.value.clone() },
            title: self.title.clone(),
            artist: self.artist.clone(),
            album: self.album.clone(),
            release_date: copy_opt_string(&self.release_date),
            external_links: self.external_links.duplicate(),
            album_art_link: copy_opt_string(&self.album_art_link),
            playback_link: copy_opt_string(&self.playback_link),
            lyrics: copy_opt_string(&self.lyrics),
            last_heard: self.last_heard,
            is_newly_heard: self.is_newly_heard,
        }
    }

    /// Whether the two songs hold the same values.
    pub fn same_as(&self, other: &Song) -> (r: bool)
        ensures
            r == same_song(*self, *other),
    {
        str_eq(self.id.prefix.as_str(), other.id.prefix.as_str())
            && str_eq(self.id.value.as_str(), other.id.value.as_str())
            && str_eq(self.title.as_str(), other.title.as_str())
            && str_eq(self.artist.as_str(), other.artist.as_str())
            && str_eq(self.album.as_str(), other.album.as_str())
            && opt_string_eq(&self.release_date, &other.release_date)
            && self.external_links.same_as(&other.external_links)
            && opt_string_eq(&self.album_art_link, &other.album_art_link)
            && opt_string_eq(&self.playback_link, &other.playback_link)
            && opt_string_eq(&self.lyrics, &other.lyrics)
            && self.last_heard == other.last_heard
            && self.is_newly_heard == other.is_newly_heard
    }

    /// A song known by its title, its artist and the link to its page on
    /// AudD, which identifies it.
    pub fn from_info_link(title: &str, artist: &str, info_link: &str) -> (r: Song)
        ensures
            is_info_link_song(r, title@, artist@, info_link@),
    {
        let id = Uid::from_prefixed("AudD", info_link);
        let mut song = Song::new(id, title.to_owned(), artist.to_owned(), String::new());
        song.external_links.insert(ExternalLinkKey::AudDUrl, info_link.to_owned());
        song
    }

    /// A song with the given identity and nothing else known of it.
    pub fn new(id: Uid, title: String, artist: String, album: String) -> (r: Song)
        ensures
            r.id == id,
            r.title == title,
            r.artist == artist,
            r.album == album,
            r.release_date is None,
            forall|k: ExternalLinkKey| #[trigger] r.external_links.spec_get(k) is None,
            r.album_art_link is None,
            r.playback_link is None,
            r.lyrics is None,
            r.last_heard is None,
            !r.is_newly_heard,
    {
        Song {
            id,
            title,
            artist,
            album,
            release_date: None,
            external_links: ExternalLinks::new(),
            album_art_link: None,
            playback_link: None,
            lyrics: None,
            last_heard: None,
            is_newly_heard: false,
        }
    }
}

} // verus!

use vstd::prelude::*;

use super::Provider;
use crate::random::pick_one;
use crate::song::{is_info_link_song, opt_view, Song};
use crate::time::{duration_from_secs, duration_of_secs};

verus! {

/// A stand-in service that recognizes one of a few known songs at random.
#[derive(Debug)]
pub struct Mock;

/// The songs the mock knows: title, artist, link, album art link and
/// playback link.
pub open spec fn mock_songs() -> Seq<(Seq<char>, Seq<char>, Seq<char>, Option<Seq<char>>, Option<Seq<char>>)> {
    seq![
        (
            "Eine Kleine Nachtmusik"@,
            "The London Symphony Orchestra"@,
            "https://lis.tn/EineKleineNachtmusik"@,
            None,
            None,
        ),
        (
            "Make You Mine"@,
            "Public"@,
            "https://lis.tn/FUYgUV"@,
            None,
            Some("https://listen.hs.llnwd.net/g3/prvw/1/3/1/4/2/1119824131.mp3"@),
        ),
        (
            "Amnesia"@,
            "5 Seconds Of Summer"@,
            "https://lis.tn/WSKAzD"@,
            Some("https://i.scdn.co/image/ab67616d0000b27393432e914046a003229378da"@),
            Some("https://audio-ssl.itunes.apple.com/itunes-assets/AudioPreview125/v4/9d/bf/3f/9dbf3f13-ae71-816f-44c1-9a6c4358e0b2/mzaf_10286406549181982375.plus.aac.p.m4a"@),
        ),
        (
            "Scars To Your Beautiful"@,
            "Alessia Cara"@,
            "https://lis.tn/ScarsToYourBeautiful"@,
            Some("https://i.scdn.co/image/ab67616d0000b273e3ae597159d6c2541c4ee61b"@),
            Some("https://audio-ssl.itunes.apple.com/itunes-assets/AudioPreview126/v4/22/67/5a/22675a39-eaa1-1059-f59f-9663fbbb513a/mzaf_9692204965232946435.plus.aac.p.m4a"@),
        ),
        (
            "Beautiful Sunday"@,
            "Daniel Boone"@,
            "https://lis.tn/YTuccJ"@,
            Some("https://i.scdn.co/image/ab67616d0000b273db8f64a52a4ec4cde9a9528a"@),
            Some("https://p.scdn.co/mp3-preview/b2fa24732fe08a251b0c8d44774f37fd55378378?cid=e44e7b8278114c7db211c00ea273ac69"@),
        ),
        (
            "The Night We Met"@,
            "Lord Huron"@,
            "https://lis.tn/TheNightWeMet"@,
            Some("https://some.invalid.link"@),
            None,
        ),
    ]
}

/// `song` is the mock's known song `entry`.
pub open spec fn is_mock_song(
    song: Song,
    entry: (Seq<char>, Seq<char>, Seq<char>, Option<Seq<char>>, Option<Seq<char>>),
) -> bool {
    &&& is_info_link_song(Song { album_art_link: None, playback_link: None, ..song }, entry.0, entry.1, entry.2)
    &&& opt_view(song.album_art_link) == entry.3
    &&& opt_view(song.playback_link) == entry.4
}

/// The known song with the given texts.
fn known_song(
    title: &str,
    artist: &str,
    info_link: &str,
    album_art_link: Option<&str>,
    playback_link: Option<&str>,
) -> (r: Song)
    ensures
        is_mock_song(
            r,
            (
                title@,
                artist@,
                info_link@,
                match album_art_link {
                    Some(l) => Some(l@),
                    None => None,
                },
                match playback_link {
                    Some(l) => Some(l@),
                    None => None,
                },
            ),
        ),
{
    let mut song = Song::from_info_link(title, artist, info_link);
    if let Some(link) = album_art_link {
        song.album_art_link = Some(link.to_owned());
    }
    if let Some(link) = playback_link {
        song.playback_link = Some(link.to_owned());
    }
    song
}

impl Mock {
    /// The songs the mock knows, in order.
    pub fn songs(&self) -> (r: Vec<Song>)
        ensures
            r@.len() == mock_songs().len(),
            forall|i: int| 0 <= i < r@.len() ==> is_mock_song(#[trigger] r@[i], mock_songs()[i]),
    {
        proof {
            reveal_strlit("Eine Kleine Nachtmusik");
            reveal_strlit("The London Symphony Orchestra");
            reveal_strlit("https://lis.tn/EineKleineNachtmusik");
            reveal_strlit("Make You Mine");
            reveal_strlit("Public");
            reveal_strlit("https://lis.tn/FUYgUV");
            reveal_strlit("https://listen.hs.llnwd.net/g3/prvw/1/3/1/4/2/1119824131.mp3");
            reveal_strlit("Amnesia");
            reveal_strlit("5 Seconds Of Summer");
            reveal_strlit("https://lis.tn/WSKAzD");
            reveal_strlit("https://i.scdn.co/image/ab67616d0000b27393432e914046a003229378da");
            reveal_strlit(
                "https://audio-ssl.itunes.apple.com/itunes-assets/AudioPreview125/v4/9d/bf/3f/9dbf3f13-ae71-816f-44c1-9a6c4358e0b2/mzaf_10286406549181982375.plus.aac.p.m4a",
            );
            reveal_strlit("Scars To Your Beautiful");
            reveal_strlit("Alessia Cara");
            reveal_strlit("https://lis.tn/ScarsToYourBeautiful");
            reveal_strlit("https://i.scdn.co/image/ab67616d0000b273e3ae597159d6c2541c4ee61b");
            reveal_strlit(
                "https://audio-ssl.itunes.apple.com/itunes-assets/AudioPreview126/v4/22/67/5a/22675a39-eaa1-1059-f59f-9663fbbb513a/mzaf_9692204965232946435.plus.aac.p.m4a",
            );
            reveal_strlit("Beautiful Sunday");
            reveal_strlit("Daniel Boone");
            reveal_strlit("https://lis.tn/YTuccJ");
            reveal_strlit("https://i.scdn.co/image/ab67616d0000b273db8f64a52a4ec4cde9a9528a");
            reveal_strlit(
                "https://p.scdn.co/mp3-preview/b2fa24732fe08a251b0c8d44774f37fd55378378?cid=e44e7b8278114c7db211c00ea273ac69",
            );
            reveal_strlit("The Night We Met");
            reveal_strlit("Lord Huron");
            reveal_strlit("https://lis.tn/TheNightWeMet");
            reveal_strlit("https://some.invalid.link");
        }
        let mut songs = Vec::new();
        songs.push(
            known_song(
                "Eine Kleine Nachtmusik",
                "The London Symphony Orchestra",
                "https://lis.tn/EineKleineNachtmusik",
                None,
                None,
            ),
        );
        songs.push(
            known_song(
                "Make You Mine",
                "Public",
                "https://lis.tn/FUYgUV",
                None,
                Some("https://listen.hs.llnwd.net/g3/prvw/1/3/1/4/2/1119824131.mp3"),
            ),
        );
        songs.push(
            known_song(
                "Amnesia",
                "5 Seconds Of Summer",
                "https://lis.tn/WSKAzD",
                Some("https://i.scdn.co/image/ab67616d0000b27393432e914046a003229378da"),
                Some(
                    "https://audio-ssl.itunes.apple.com/itunes-assets/AudioPreview125/v4/9d/bf/3f/9dbf3f13-ae71-816f-44c1-9a6c4358e0b2/mzaf_10286406549181982375.plus.aac.p.m4a",
                ),
            ),
        );
        songs.push(
            known_song(
                "Scars To Your Beautiful",
                "Alessia Cara",
                "https://lis.tn/ScarsToYourBeautiful",
                Some("https://i.scdn.co/image/ab67616d0000b273e3ae597159d6c2541c4ee61b"),
                Some(
                    "https://audio-ssl.itunes.apple.com/itunes-assets/AudioPreview126/v4/22/67/5a/22675a39-eaa1-1059-f59f-9663fbbb513a/mzaf_9692204965232946435.plus.aac.p.m4a",
                ),
            ),
        );
        songs.push(
            known_song(
                "Beautiful Sunday",
                "Daniel Boone",
                "https://lis.tn/YTuccJ",
                Some("https://i.scdn.co/image/ab67616d0000b273db8f64a52a4ec4cde9a9528a"),
                Some(
                    "https://p.scdn.co/mp3-preview/b2fa24732fe08a251b0c8d44774f37fd55378378?cid=e44e7b8278114c7db211c00ea273ac69",
                ),
            ),
        );
        songs.push(
            known_song(
                "The Night We Met",
                "Lord Huron",
                "https://lis.tn/TheNightWeMet",
                Some("https://some.invalid.link"),
                None,
            ),
        );
        songs
    }

    /// The known song at `position`.
    pub fn song_at(&self, position: usize) -> (r: Song)
        requires
            position < mock_songs().len(),
        ensures
            is_mock_song(r, mock_songs()[position as int]),
    {
        let mut songs = self.songs();
        songs.remove(position)
    }

    /// One of the known songs, picked at random.
    pub fn random_song(&self) -> (r: Song)
        ensures
            exists|i: int| 0 <= i < mock_songs().len() && is_mock_song(r, #[trigger] mock_songs()[i]),
    {
        let n_songs: usize = 6;
        let mut positions: Vec<usize> = Vec::new();
        let mut i: usize = 0;
        while i < n_songs
            invariant
                i <= n_songs,
                n_songs == mock_songs().len(),
                positions@.len() == i,
                forall|j: int| 0 <= j < i ==> positions@[j] == j,
            decreases n_songs - i,
        {
            positions.push(i);
            i = i + 1;
        }
        let position = match pick_one(positions.as_slice()) {
            Some(p) => *p,
            None => 0,
        };
        self.song_at(position)
    }
}

impl Provider for Mock {
    open spec fn sent_api_token(&self) -> Option<Seq<char>> {
        None
    }

    open spec fn recorded_duration(&self) -> std::time::Duration {
        duration_of_secs(1)
    }

    fn listen_duration(&self) -> (r: std::time::Duration)
        ensures
            r == duration_of_secs(1),
    {
        duration_from_secs(1)
    }
}

} // verus!

pub mod error;
pub mod mock;
pub mod response;

use vstd::prelude::*;
use vstd::string::StringExecFns;

pub use self::mock::AudDMock;
use self::response::{Data, Response};
use super::Provider;
use crate::time::{duration_from_secs, duration_of_secs};
use crate::recognizer::provider::error::{RecognizeError, RecognizeErrorKind};
use crate::song::{opt_view, ExternalLinkKey, Song, Uid};
use crate::text::{replace_all, replace_str, trim_start_matches, trim_start_matches_str};

verus! {

/// The AudD recognition service, called with an API token.
pub struct AudD {
    api_token: String,
}

/// The first element of `s`, if any.
pub open spec fn first_of(s: Seq<Seq<char>>) -> Option<Seq<char>> {
    if s.len() > 0 {
        Some(s[0])
    } else {
        None
    }
}

/// The album images a response offers, in order of preference: the first
/// Spotify album image, then the Apple Music artwork at 600x600.
pub open spec fn album_image_candidates(data: Data) -> Seq<Seq<char>> {
    (match data.spotify_data {
        Some(s) => if s.album.images@.len() > 0 {
            seq![s.album.images@[0].url@]
        } else {
            seq![]
        },
        None => seq![],
    }) + (match data.apple_music_data {
        Some(a) => seq![replace_all(replace_all(a.artwork.url@, "{w}"@, "600"@), "{h}"@, "600"@)],
        None => seq![],
    })
}

/// The playback links a response offers, in order of preference: a non-empty
/// Spotify preview, then the last Apple Music preview.
pub open spec fn playback_candidates(data: Data) -> Seq<Seq<char>> {
    (match data.spotify_data {
        Some(s) => if s.preview_url@.len() > 0 {
            seq![s.preview_url@]
        } else {
            seq![]
        },
        None => seq![],
    }) + (match data.apple_music_data {
        Some(a) => if a.previews@.len() > 0 {
            seq![a.previews@.last().url@]
        } else {
            seq![]
        },
        None => seq![],
    })
}

/// `song` holds exactly what the response data says of it.
pub open spec fn is_song_of_data(song: Song, data: Data) -> bool {
    &&& song.id.prefix@ == "AudD"@
    &&& song.id.value@ == trim_start_matches(data.info_link@, "https://lis.tn/"@)
    &&& song.title@ == data.title@
    &&& song.artist@ == data.artist@
    &&& song.album@ == data.album@
    &&& opt_view(song.release_date) == opt_view(data.release_date)
    &&& song.external_links.spec_get(ExternalLinkKey::AudDUrl) == Some(data.info_link@)
    &&& song.external_links.spec_get(ExternalLinkKey::YoutubeSearchTerm) == Some(
        data.artist@ + " - "@ + data.title@,
    )
    &&& song.external_links.spec_get(ExternalLinkKey::SpotifyUrl) == match data.spotify_data {
        Some(s) => Some(s.external_urls.spotify@),
        None => None,
    }
    &&& song.external_links.spec_get(ExternalLinkKey::AppleMusicUrl) == match data.apple_music_data {
        Some(a) => Some(a.url@),
        None => None,
    }
    &&& opt_view(song.album_art_link) == first_of(album_image_candidates(data))
    &&& opt_view(song.playback_link) == first_of(playback_candidates(data))
    &&& opt_view(song.lyrics) == match data.lyrics_data {
        Some(l) => if l.lyrics@.len() > 0 {
            Some(l.lyrics@)
        } else {
            None
        },
        None => None,
    }
    &&& song.last_heard is None
    &&& !song.is_newly_heard
}

/// The lyrics of a song decoded from AudD's data are the text of the
/// answer's lyrics object whenever that text is not empty, and the song
/// has no lyrics only when the answer has no lyrics object or an empty one.
pub proof fn lyrics_come_from_the_answer(song: Song, data: Data)
    requires
        is_song_of_data(song, data),
    ensures
        data.lyrics_data is Some && data.lyrics_data->0.lyrics@.len() > 0 ==> opt_view(song.lyrics) == Some(
            data.lyrics_data->0.lyrics@,
        ),
        song.lyrics is None <==> (data.lyrics_data is None || data.lyrics_data->0.lyrics@.len() == 0),
{
}

impl AudD {
    pub closed spec fn spec_api_token(self) -> Seq<char> {
        self.api_token@
    }

    /// A client that sends `api_token`, or an empty token when there is none.
    pub fn new(api_token: Option<&str>) -> (r: Self)
        ensures
            r.spec_api_token() == match api_token {
                Some(t) => t@,
                None => Seq::<char>::empty(),
            },
    {
        let api_token = match api_token {
            Some(t) => String::from_str(t),
            None => String::new(),
        };
        Self { api_token }
    }

    /// The token this client sends.
    pub fn api_token(&self) -> (r: &str)
        ensures
            r@ == self.spec_api_token(),
    {
        self.api_token.as_str()
    }

    /// The song described by the data of a successful response.
    pub fn build_song_from_data(data: Data) -> (r: Song)
        ensures
            is_song_of_data(r, data),
    {
        proof {
            reveal_strlit("https://lis.tn/");
            reveal_strlit("{w}");
            reveal_strlit("{h}");
            reveal_strlit("600");
            reveal_strlit(" - ");
        }
        let ghost d = data;
        // Info link is unique to every song
        let id_value = trim_start_matches_str(data.info_link.as_str(), "https://lis.tn/");
        let id = Uid::from_prefixed("AudD", id_value.as_str());
        let mut youtube_search_term = String::from_str(data.artist.as_str());
        youtube_search_term.append(" - ");
        youtube_search_term.append(data.title.as_str());

        let mut song = Song::new(id, data.title, data.artist, data.album);
        song.release_date = data.release_date;

        let mut playback_link: Option<String> = None;
        let mut album_image: Option<String> = None;

        song.external_links.insert(ExternalLinkKey::AudDUrl, data.info_link);
        song.external_links.insert(ExternalLinkKey::YoutubeSearchTerm, youtube_search_term);

        if let Some(spotify_data) = data.spotify_data {
            if spotify_data.album.images.len() > 0 {
                album_image = Some(spotify_data.album.images[0].url.clone());
            }
            if spotify_data.preview_url.unicode_len() > 0 {
                playback_link = Some(spotify_data.preview_url);
            }
            song.external_links.insert(ExternalLinkKey::SpotifyUrl, spotify_data.external_urls.spotify);
        }

        if let Some(apple_music_data) = data.apple_music_data {
            song.external_links.insert(ExternalLinkKey::AppleMusicUrl, apple_music_data.url);

            let n_previews = apple_music_data.previews.len();
            if n_previews > 0 && playback_link.is_none() {
                playback_link = Some(apple_music_data.previews[n_previews - 1].url.clone());
            }

            if album_image.is_none() {
                let with_width = replace_str(apple_music_data.artwork.url.as_str(), "{w}", "600");
                album_image = Some(replace_str(with_width.as_str(), "{h}", "600"));
            }
        }

        if let Some(lyrics_data) = data.lyrics_data {
            if lyrics_data.lyrics.unicode_len() > 0 {
                song.lyrics = Some(lyrics_data.lyrics);
            }
        }

        song.album_art_link = album_image;
        song.playback_link = playback_link;
        song
    }

    /// The song a parsed response describes, or the error it reports.
    /// `parsed` is the response as decoded from the server's JSON, or the
    /// decoder's message when the bytes were no valid response.
    pub fn build_song_from_response(parsed: Result<Response, String>) -> (r: Result<Song, RecognizeError>)
        ensures
            match parsed {
                Err(message) => r matches Err(e) && e@ == (RecognizeErrorKind::OtherPermanent, Some(message@)),
                Ok(response) => match response.spec_outcome() {
                    Ok(data) => r matches Ok(song) && is_song_of_data(song, data),
                    Err(e) => r matches Err(err) && err@ == e,
                },
            },
    {
        match parsed {
            Err(message) => Err(RecognizeError::new(RecognizeErrorKind::OtherPermanent, Some(message))),
            Ok(response) => {
                let data = response.data()?;
                Ok(Self::build_song_from_data(data))
            },
        }
    }
}

impl Provider for AudD {
    open spec fn sent_api_token(&self) -> Option<Seq<char>> {
        Some(self.spec_api_token())
    }

    open spec fn recorded_duration(&self) -> std::time::Duration {
        duration_of_secs(5)
    }

    open spec fn supports_test_mode(&self) -> bool {
        false
    }

    fn listen_duration(&self) -> (r: std::time::Duration)
        ensures
            r == duration_of_secs(5),
    {
        duration_from_secs(5)
    }

    fn is_test(&self) -> (r: bool)
        ensures
            !r,
    {
        false
    }
}

} // verus!

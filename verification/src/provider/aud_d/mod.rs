pub mod error;
pub mod mock;
pub mod response;
pub mod simple;

use vstd::prelude::*;

pub use self::error::RequestError;
use self::error::AudDError;
use self::response::{Data, Response};
use super::Provider;
use crate::song::{is_info_link_song, opt_view, Song};
use crate::time::{duration_from_secs, duration_of_secs};

verus! {

/// The AudD recognition service, called with an API token.
#[derive(Debug)]
pub struct AudD {
    api_token: String,
}

/// The link of the album art that the data offers: its first Spotify
/// album image.
pub open spec fn album_art_of(data: Data) -> Option<Seq<char>> {
    match data.spotify_data {
        Some(s) => if s.album.images@.len() > 0 {
            Some(s.album.images@[0].url@)
        } else {
            None
        },
        None => None,
    }
}

impl AudD {
    pub closed spec fn spec_api_token(self) -> Seq<char> {
        self.api_token@
    }

    /// A client that sends `api_token`, or an empty token when there is none.
    pub fn new(api_token: Option<&str>) -> (r: Self)
        ensures
            r.spec_api_token() == match api_token {
                Some(t) => t@,
                None => Seq::<char>::empty(),
            },
    {
        let api_token = match api_token {
            Some(t) => t.to_owned(),
            None => String::new(),
        };
        Self { api_token }
    }

    /// The token this client sends.
    pub fn api_token(&self) -> (r: &str)
        ensures
            r@ == self.spec_api_token(),
    {
        self.api_token.as_str()
    }

    /// The data of a decoded response, or why there is none: `parsed` is
    /// what decoding the server's bytes gave.
    pub fn data_from_parsed(parsed: Result<Response, serde_json::Error>) -> (r: Result<Data, RequestError>)
        ensures
            match parsed {
                Err(e) => r matches Err(RequestError::Parse(f)) && f == e,
                Ok(response) => match response.spec_outcome() {
                    Ok(d) => r matches Ok(data) && data == d,
                    Err(v) => r matches Err(RequestError::AudD(e)) && e@ == v,
                },
            },
    {
        match parsed {
            Err(err) => Err(RequestError::Parse(err)),
            Ok(response) => match response.data() {
                Ok(data) => Ok(data),
                Err(err) => Err(RequestError::AudD(err)),
            },
        }
    }

    /// The song the data of a successful response describes: its title,
    /// artist and link, with the first Spotify album image as album art.
    pub fn handle_data(data: Data) -> (r: Song)
        ensures
            is_info_link_song(
                Song { album_art_link: None, ..r },
                data.title@,
                data.artist@,
                data.info_link@,
            ),
            opt_view(r.album_art_link) == album_art_of(data),
    {
        let ghost d = data;
        let mut song = Song::from_info_link(data.title.as_str(), data.artist.as_str(), data.info_link.as_str());

        if let Some(spotify_data) = data.spotify_data {
            if spotify_data.album.images.len() > 0 {
                song.album_art_link = Some(spotify_data.album.images[0].url.clone());
            }
        }

        song
    }
}

impl Provider for AudD {
    open spec fn sent_api_token(&self) -> Option<Seq<char>> {
        Some(self.spec_api_token())
    }

    open spec fn recorded_duration(&self) -> std::time::Duration {
        duration_of_secs(5)
    }

    fn listen_duration(&self) -> (r: std::time::Duration)
        ensures
            r == duration_of_secs(5),
    {
        duration_from_secs(5)
    }
}

} // verus!

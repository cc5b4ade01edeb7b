//! The plainest form of an AudD answer: a status and the result, whose
//! Spotify object is always there.
use vstd::prelude::*;
use vstd::string::StringExecFns;

use crate::song::{is_info_link_song, Song};
use crate::text::str_eq;

verus! {

#[derive(Debug)]
pub struct Image {
    pub url: String,
}

#[derive(Debug)]
pub struct Album {
    pub images: Vec<Image>,
}

#[derive(Debug)]
pub struct SpotifyData {
    pub album: Album,
    pub disc_number: u32,
    pub track_number: u32,
}

#[derive(Debug)]
pub struct Data {
    pub title: String,
    pub artist: String,
    pub timecode: String,
    /// The `song_link` of the answer
    pub info_link: String,
    /// The `spotify` object of the answer
    pub spotify_data: SpotifyData,
}

#[derive(Debug)]
pub struct Response {
    /// The `result` of the answer
    pub data: Option<Data>,
    pub status: String,
}

impl Response {
    /// The song of a successful answer, or why there is none.
    pub fn into_song(self) -> (r: Result<Song, String>)
        ensures
            self.status@ != "success"@ ==> (r matches Err(m) && m@ == "Returned "@ + self.status@
                + " as status"@),
            self.status@ == "success"@ ==> match self.data {
                None => r matches Err(m) && m@ == "Cannot recognize song"@,
                Some(d) => r matches Ok(song) && is_info_link_song(song, d.title@, d.artist@, d.info_link@),
            },
    {
        proof {
            reveal_strlit("success");
        }
        if !str_eq(self.status.as_str(), "success") {
            let mut message = String::from_str("Returned ");
            message.append(self.status.as_str());
            message.append(" as status");
            return Err(message);
        }

        match self.data {
            None => Err(String::from_str("Cannot recognize song")),
            Some(data) => Ok(Song::from_info_link(data.title.as_str(), data.artist.as_str(), data.info_link.as_str())),
        }
    }
}

} // verus!

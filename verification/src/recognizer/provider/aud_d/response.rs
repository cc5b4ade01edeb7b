use vstd::prelude::*;
use vstd::string::StringExecFns;

use crate::recognizer::provider::error::{RecognizeError, RecognizeErrorKind};
use crate::song::opt_view;
use crate::text::{decimal, push_decimal, str_eq};

verus! {

#[derive(Debug)]
pub struct LyricsData {
    pub lyrics: String,
    /// A json object containing `provider` and `url` field
    pub media: String,
}

#[derive(Debug)]
pub struct Preview {
    pub url: String,
}

#[derive(Debug)]
pub struct Artwork {
    pub url: String,
}

#[derive(Debug)]
pub struct AppleMusicData {
    pub previews: Vec<Preview>,
    pub url: String,
    pub artwork: Artwork,
}

#[derive(Debug)]
pub struct Image {
    pub url: String,
}

#[derive(Debug)]
pub struct Album {
    pub images: Vec<Image>,
}

#[derive(Debug)]
pub struct ExternalUrls {
    pub spotify: String,
}

#[derive(Debug)]
pub struct SpotifyData {
    pub album: Album,
    pub disc_number: u32,
    pub track_number: u32,
    pub preview_url: String,
    pub external_urls: ExternalUrls,
}

#[derive(Debug)]
pub struct Data {
    pub artist: String,
    pub title: String,
    pub album: String,
    /// In format of ISO-8601 (%Y-%m-%d)
    pub release_date: Option<String>,
    pub label: Option<String>,
    pub timecode: String,
    /// The `song_link` of the response
    pub info_link: String,
    /// The `spotify` object of the response
    pub spotify_data: Option<SpotifyData>,
    /// The `apple_music` object of the response
    pub apple_music_data: Option<AppleMusicData>,
    /// The `lyrics` object of the response
    pub lyrics_data: Option<LyricsData>,
}

/// The `error` object of a response: `error_code` and `error_message`.
#[derive(Debug)]
pub struct AudDRawError {
    pub code: u16,
    pub message: String,
}

/// If `status` is `success` `data` is `Some` and `error` is `None`. On the other hand, if status is
/// `error` it is the opposite.
///
/// Thus `data` and `error` are mutually exclusive.
#[derive(Debug)]
pub struct Response {
    status: String,
    /// The `result` of the response
    data: Option<Data>,
    error: Option<AudDRawError>,
}

/// The kind of error reported for an AudD error code, after
/// https://docs.audd.io/#common-errors
pub open spec fn kind_for_code(code: u16) -> RecognizeErrorKind {
    if code == 901 {
        RecognizeErrorKind::TokenLimitReached
    } else if code == 900 {
        RecognizeErrorKind::InvalidToken
    } else if code == 300 {
        RecognizeErrorKind::Fingerprint
    } else {
        RecognizeErrorKind::OtherPermanent
    }
}

impl Response {
    pub closed spec fn spec_status(self) -> Seq<char> {
        self.status@
    }

    pub closed spec fn spec_data(self) -> Option<Data> {
        self.data
    }

    pub closed spec fn spec_error(self) -> Option<AudDRawError> {
        self.error
    }

    /// What `data` answers: the data, or the error as a kind and a message.
    pub open spec fn spec_outcome(self) -> Result<Data, (RecognizeErrorKind, Option<Seq<char>>)> {
        if self.spec_status() == "success"@ {
            match self.spec_data() {
                Some(d) => Ok(d),
                None => Err((RecognizeErrorKind::NoMatches, None)),
            }
        } else if self.spec_status() == "error"@ {
            match self.spec_error() {
                None => Err(
                    (RecognizeErrorKind::OtherPermanent, Some("Got `error` status but no error"@)),
                ),
                Some(e) => Err(
                    (kind_for_code(e.code), Some("#"@ + decimal(e.code as nat) + ": "@ + e.message@)),
                ),
            }
        } else {
            Err(
                (
                    RecognizeErrorKind::OtherPermanent,
                    Some("Got invalid status response of "@ + self.spec_status()),
                ),
            )
        }
    }

    pub fn new(status: String, data: Option<Data>, error: Option<AudDRawError>) -> (r: Self)
        ensures
            r.spec_status() == status@,
            r.spec_data() == data,
            r.spec_error() == error,
    {
        Response { status, data, error }
    }

    /// The `status`, `result` and `error` members.
    pub fn into_parts(self) -> (r: (String, Option<Data>, Option<AudDRawError>))
        ensures
            r.0@ == self.spec_status(),
            r.1 == self.spec_data(),
            r.2 == self.spec_error(),
    {
        (self.status, self.data, self.error)
    }

    pub fn data(self) -> (r: Result<Data, RecognizeError>)
        ensures
            match (r, self.spec_outcome()) {
                (Ok(d), Ok(e)) => d == e,
                (Err(d), Err(e)) => d@ == e,
                _ => false,
            },
    {
        proof {
            reveal_strlit("success");
            reveal_strlit("error");
        }
        if str_eq(self.status.as_str(), "success") {
            return match self.data {
                Some(data) => Ok(data),
                None => Err(RecognizeError::new(RecognizeErrorKind::NoMatches, None)),
            };
        }

        if str_eq(self.status.as_str(), "error") {
            let error = match self.error {
                Some(error) => error,
                None => {
                    return Err(
                        RecognizeError::with_message(
                            RecognizeErrorKind::OtherPermanent,
                            "Got `error` status but no error",
                        ),
                    );
                },
            };

            // Based on https://docs.audd.io/#common-errors
            let kind = match error.code {
                901 => RecognizeErrorKind::TokenLimitReached,
                900 => RecognizeErrorKind::InvalidToken,
                300 => RecognizeErrorKind::Fingerprint,
                _ => RecognizeErrorKind::OtherPermanent,
            };
            let mut message = String::from_str("#");
            push_decimal(&mut message, error.code as u64);
            message.append(": ");
            message.append(error.message.as_str());
            return Err(RecognizeError::new(kind, Some(message)));
        }

        let mut message = String::from_str("Got invalid status response of ");
        message.append(self.status.as_str());
        Err(RecognizeError::new(RecognizeErrorKind::OtherPermanent, Some(message)))
    }
}

} // verus!

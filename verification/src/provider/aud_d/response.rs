use vstd::prelude::*;
use vstd::string::StringExecFns;

use super::error::{AudDError, AudDErrorView};
use crate::text::{decimal, push_decimal, str_eq};

verus! {

#[derive(Debug)]
pub struct Image {
    pub url: String,
}

#[derive(Debug)]
pub struct Album {
    pub images: Vec<Image>,
}

#[derive(Debug)]
pub struct SpotifyData {
    pub album: Album,
    pub disc_number: u32,
    pub track_number: u32,
    pub preview_url: String,
}

#[derive(Debug)]
pub struct Data {
    pub artist: String,
    pub title: String,
    pub album: String,
    /// In format of ISO-8601 (%Y-%m-%d)
    pub release_date: String,
    /// The record label; not shown yet
    pub label: String,
    pub timecode: String,
    /// The `song_link` of the response
    pub info_link: String,
    /// The `spotify` object of the response
    pub spotify_data: Option<SpotifyData>,
}

/// The `error` object of a response: `error_code` and `error_message`.
#[derive(Debug)]
pub struct AudDRawError {
    pub code: u16,
    pub message: String,
}

/// The error that an AudD error code stands for.
pub open spec fn error_of_raw(code: u16, message: Seq<char>) -> AudDErrorView {
    if code == 901 {
        AudDErrorView::DailyLimitReached
    } else if code == 900 {
        AudDErrorView::InvalidToken
    } else if code == 300 {
        AudDErrorView::Fingerprint(message)
    } else {
        AudDErrorView::Other(message + " ("@ + decimal(code as nat) + ")"@)
    }
}

impl AudDRawError {
    pub fn into_aud_d_error(self) -> (r: AudDError)
        ensures
            r@ == error_of_raw(self.code, self.message@),
    {
        match self.code {
            901 => AudDError::DailyLimitReached,
            900 => AudDError::InvalidToken,
            300 => AudDError::Fingerprint(self.message),
            other_code => {
                let mut message = self.message;
                message.append(" (");
                push_decimal(&mut message, other_code as u64);
                message.append(")");
                AudDError::Other(message)
            },
        }
    }
}

/// If `status` is `success` `data` is `Some` and `error` is `None`. On the other hand, if status is
/// `error` it is the opposite.
///
/// Thus `data` and `error` are mutually exclusive.
#[derive(Debug)]
pub struct Response {
    status: String,
    /// The `result` of the response
    data: Option<Data>,
    error: Option<AudDRawError>,
}

impl Response {
    pub closed spec fn spec_status(self) -> Seq<char> {
        self.status@
    }

    pub closed spec fn spec_data(self) -> Option<Data> {
        self.data
    }

    pub closed spec fn spec_error(self) -> Option<AudDRawError> {
        self.error
    }

    /// What `data` answers: the data, or the error the response reports.
    pub open spec fn spec_outcome(self) -> Result<Data, AudDErrorView> {
        if self.spec_status() == "success"@ {
            match self.spec_data() {
                Some(d) => Ok(d),
                None => Err(AudDErrorView::NoMatches),
            }
        } else if self.spec_status() == "error"@ {
            match self.spec_error() {
                None => Err(AudDErrorView::Other("Got `error` status, but no error"@)),
                Some(e) => Err(error_of_raw(e.code, e.message@)),
            }
        } else {
            Err(AudDErrorView::Other("Got invalid status response of "@ + self.spec_status()))
        }
    }

    /// The response with the given `status`, `result` and `error` members.
    pub fn new(status: String, data: Option<Data>, error: Option<AudDRawError>) -> (r: Self)
        ensures
            r.spec_status() == status@,
            r.spec_data() == data,
            r.spec_error() == error,
    {
        Response { status, data, error }
    }

    /// The `status`, `result` and `error` members.
    pub fn into_parts(self) -> (r: (String, Option<Data>, Option<AudDRawError>))
        ensures
            r.0@ == self.spec_status(),
            r.1 == self.spec_data(),
            r.2 == self.spec_error(),
    {
        (self.status, self.data, self.error)
    }

    pub fn data(self) -> (r: Result<Data, AudDError>)
        ensures
            match (r, self.spec_outcome()) {
                (Ok(d), Ok(e)) => d == e,
                (Err(d), Err(e)) => d@ == e,
                _ => false,
            },
    {
        proof {
            reveal_strlit("success");
            reveal_strlit("error");
        }
        if str_eq(self.status.as_str(), "success") {
            match self.data {
                Some(data) => Ok(data),
                None => Err(AudDError::NoMatches),
            }
        } else if str_eq(self.status.as_str(), "error") {
            match self.error {
                None => Err(AudDError::Other(String::from_str("Got `error` status, but no error"))),
                Some(error) => Err(error.into_aud_d_error()),
            }
        } else {
            let mut message = String::from_str("Got invalid status response of ");
            message.append(self.status.as_str());
            Err(AudDError::Other(message))
        }
    }
}

} // verus!

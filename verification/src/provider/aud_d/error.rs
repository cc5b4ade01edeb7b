use vstd::prelude::*;

verus! {

/// What the AudD service reports when it recognizes nothing.
#[derive(Debug)]
pub enum AudDError {
    // Song inputted has no matches
    NoMatches,
    // Passed in invalid API token
    InvalidToken,
    // There is no API token passed, and the daily limit was reached.
    DailyLimitReached,
    // There was a problem with audio decoding or with the neural network. Possibly, the audio file is too small.
    Fingerprint(String),
    // Miscellaneous errors
    Other(String),
}

/// An AudD error with its texts taken as character sequences.
pub enum AudDErrorView {
    NoMatches,
    InvalidToken,
    DailyLimitReached,
    Fingerprint(Seq<char>),
    Other(Seq<char>),
}

impl View for AudDError {
    type V = AudDErrorView;

    open spec fn view(&self) -> AudDErrorView {
        match self {
            AudDError::NoMatches => AudDErrorView::NoMatches,
            AudDError::InvalidToken => AudDErrorView::InvalidToken,
            AudDError::DailyLimitReached => AudDErrorView::DailyLimitReached,
            AudDError::Fingerprint(m) => AudDErrorView::Fingerprint(m@),
            AudDError::Other(m) => AudDErrorView::Other(m@),
        }
    }
}

#[verifier::external_type_specification]
#[verifier::external_body]
pub struct ExReqwestError(reqwest::Error);

/// Why a recognition with AudD failed.
#[derive(Debug)]
pub enum RequestError {
    // Problem in HTTPS response parsing
    Parse(serde_json::Error),
    // Problem converting file into base64, with the cause's text
    FileConvert(String),
    // Request sepecific errors
    Reqwest(reqwest::Error),
    // AudD specific errors
    AudD(AudDError),
}

impl From<AudDError> for RequestError {
    fn from(err: AudDError) -> (r: Self) {
        Self::AudD(err)
    }
}

impl vstd::std_specs::convert::FromSpecImpl<AudDError> for RequestError {
    open spec fn obeys_from_spec() -> bool {
        true
    }

    open spec fn from_spec(err: AudDError) -> Self {
        RequestError::AudD(err)
    }
}

impl From<serde_json::Error> for RequestError {
    fn from(err: serde_json::Error) -> (r: Self) {
        Self::Parse(err)
    }
}

impl vstd::std_specs::convert::FromSpecImpl<serde_json::Error> for RequestError {
    open spec fn obeys_from_spec() -> bool {
        true
    }

    open spec fn from_spec(err: serde_json::Error) -> Self {
        RequestError::Parse(err)
    }
}

impl From<reqwest::Error> for RequestError {
    fn from(err: reqwest::Error) -> (r: Self) {
        Self::Reqwest(err)
    }
}

impl vstd::std_specs::convert::FromSpecImpl<reqwest::Error> for RequestError {
    open spec fn obeys_from_spec() -> bool {
        true
    }

    open spec fn from_spec(err: reqwest::Error) -> Self {
        RequestError::Reqwest(err)
    }
}

} // verus!

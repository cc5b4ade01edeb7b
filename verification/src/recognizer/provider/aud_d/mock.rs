use vstd::prelude::*;

use crate::provider::aud_d::mock::RAW_RESPONSES;
use crate::random::pick_one;
use crate::recognizer::provider::Provider;

verus! {

/// A test stand-in for the AudD service that answers with one of its
/// recorded responses, which AudD's own decoding then reads.
#[derive(Debug)]
pub struct AudDMock {
    listen_duration: std::time::Duration,
}

impl AudDMock {
    pub closed spec fn spec_listen_duration(self) -> std::time::Duration {
        self.listen_duration
    }

    /// A mock that records for `listen_duration`.
    pub fn new(listen_duration: std::time::Duration) -> (r: Self)
        ensures
            r.spec_listen_duration() == listen_duration,
    {
        AudDMock { listen_duration }
    }

    /// One of the recorded responses, picked at random, as the server's
    /// JSON text.
    pub fn random_response(&self) -> (r: &'static str)
        ensures
            exists|i: int| 0 <= i < RAW_RESPONSES@.len() && RAW_RESPONSES@[i] == r,
    {
        let raw_responses: &[&'static str] = &RAW_RESPONSES;
        match pick_one(raw_responses) {
            Some(response) => *response,
            None => raw_responses[0],
        }
    }
}

impl Provider for AudDMock {
    open spec fn sent_api_token(&self) -> Option<Seq<char>> {
        None
    }

    open spec fn recorded_duration(&self) -> std::time::Duration {
        self.spec_listen_duration()
    }

    open spec fn supports_test_mode(&self) -> bool {
        true
    }

    fn listen_duration(&self) -> (r: std::time::Duration)
        ensures
            r == self.spec_listen_duration(),
    {
        self.listen_duration
    }

    fn is_test(&self) -> (r: bool)
        ensures
            r,
    {
        true
    }
}

} // verus!

use vstd::prelude::*;

use super::{Provider, RecognizeError, RecognizeErrorKind, TestProvider, TestProviderMode};
use crate::song::Song;

verus! {

/// A test service that fails every time, going through each kind of error
/// in turn.
#[derive(Debug)]
pub struct ErrorTester {
    current: i32,
    listen_duration: std::time::Duration,
}

/// The kind and message of the error given at step `n` of the cycle.
pub open spec fn tester_error(n: int) -> (RecognizeErrorKind, Option<Seq<char>>) {
    if n == 0 {
        (RecognizeErrorKind::Connection, Some("connection error message"@))
    } else if n == 1 {
        (RecognizeErrorKind::TokenLimitReached, Some("token limit reached error message"@))
    } else if n == 2 {
        (RecognizeErrorKind::InvalidToken, Some("invalid token error message"@))
    } else if n == 3 {
        (RecognizeErrorKind::Fingerprint, Some("fingerprint error message"@))
    } else if n == 4 {
        (RecognizeErrorKind::NoMatches, Some("no matches error message"@))
    } else {
        (RecognizeErrorKind::OtherPermanent, Some("other permanent error message"@))
    }
}

/// The step after `n`: the cycle has six steps.
pub open spec fn next_step(n: int) -> int {
    if n >= 5 {
        0
    } else {
        n + 1
    }
}

impl ErrorTester {
    /// The step of the cycle the next answer comes from.
    pub closed spec fn spec_current(self) -> int {
        self.current as int
    }

    pub closed spec fn spec_listen_duration(self) -> std::time::Duration {
        self.listen_duration
    }

    /// Its steps are those of the cycle.
    pub closed spec fn wf(self) -> bool {
        0 <= self.current <= 5
    }

    /// A tester at the start of its cycle that records for `listen_duration`.
    pub fn new(listen_duration: std::time::Duration) -> (r: Self)
        ensures
            r.wf(),
            r.spec_current() == 0,
            r.spec_listen_duration() == listen_duration,
    {
        ErrorTester { current: 0, listen_duration }
    }
}

impl TestProvider for ErrorTester {
    /// Fails with the error of the current step and moves to the next one;
    /// only the mode that asks for errors is meant for it.
    fn recognize_impl(&mut self, bytes: &[u8], mode: TestProviderMode) -> (r: Result<Song, RecognizeError>)
        ensures
            old(self).wf() ==> final(self).wf(),
            final(self).spec_current() == next_step(old(self).spec_current()),
            final(self).spec_listen_duration() == old(self).spec_listen_duration(),
            r matches Err(e) && e@ == tester_error(old(self).spec_current()),
    {
        let step = self.current;
        self.current = if step >= 5 {
            0
        } else {
            step + 1
        };
        let err = if step == 0 {
            RecognizeError::with_message(RecognizeErrorKind::Connection, "connection error message")
        } else if step == 1 {
            RecognizeError::with_message(RecognizeErrorKind::TokenLimitReached, "token limit reached error message")
        } else if step == 2 {
            RecognizeError::with_message(RecognizeErrorKind::InvalidToken, "invalid token error message")
        } else if step == 3 {
            RecognizeError::with_message(RecognizeErrorKind::Fingerprint, "fingerprint error message")
        } else if step == 4 {
            RecognizeError::with_message(RecognizeErrorKind::NoMatches, "no matches error message")
        } else {
            RecognizeError::with_message(RecognizeErrorKind::OtherPermanent, "other permanent error message")
        };
        Err(err)
    }
}

impl Provider for ErrorTester {
    open spec fn sent_api_token(&self) -> Option<Seq<char>> {
        None
    }

    open spec fn recorded_duration(&self) -> std::time::Duration {
        self.spec_listen_duration()
    }

    open spec fn supports_test_mode(&self) -> bool {
        true
    }

    fn listen_duration(&self) -> (r: std::time::Duration)
        ensures
            r == self.spec_listen_duration(),
    {
        self.listen_duration
    }

    fn is_test(&self) -> (r: bool)
        ensures
            r,
    {
        true
    }
}

/// The tester goes round its cycle: six answers on bring it back to the
/// step it started from.
pub proof fn cycle_has_six_steps(n: int)
    requires
        0 <= n <= 5,
    ensures
        next_step(next_step(next_step(next_step(next_step(next_step(n)))))) == n,
        forall|k: int| 0 <= k <= 5 ==> 0 <= #[trigger] next_step(k) <= 5,
{
}

} // verus!

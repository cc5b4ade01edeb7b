pub mod aud_d;
pub mod error;
pub mod error_tester;
pub mod settings;
pub mod shazam;

use vstd::prelude::*;

pub use self::error::{RecognizeError, RecognizeErrorKind};
pub use self::settings::{ProviderSettings, ProviderType, TestProviderMode};
use crate::song::Song;

verus! {

/// A recognition service. The recognition itself, a request to the
/// service, is made by the application with the service's own decoding.
pub trait Provider {
    /// How long this service records.
    spec fn recorded_duration(&self) -> std::time::Duration;

    /// Whether this service answers in the test modes.
    spec fn supports_test_mode(&self) -> bool;

    /// The API token this service sends with a recording, if it sends one.
    spec fn sent_api_token(&self) -> Option<Seq<char>>;

    /// How long to record the audio
    fn listen_duration(&self) -> (r: std::time::Duration)
        ensures
            r == self.recorded_duration(),
    ;

    /// Whether this supports `TestProviderMode`
    fn is_test(&self) -> (r: bool)
        ensures
            r == self.supports_test_mode(),
    ;
}

/// A service for testing, which answers without a request.
pub trait TestProvider {
    /// Answers a recognition of `bytes` in the given mode.
    fn recognize_impl(&mut self, bytes: &[u8], mode: TestProviderMode) -> Result<Song, RecognizeError>;
}

} // verus!

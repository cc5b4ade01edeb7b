//! The recognition services and which of them is active.
pub mod aud_d;
pub mod mock;

use vstd::prelude::*;

use self::aud_d::{AudD, RequestError};
use self::mock::Mock;
use crate::time::duration_of_secs;

verus! {

/// A recognition service: it records for its listen duration, then the
/// recording is sent to it.
pub trait Provider {
    /// How long this service records.
    spec fn recorded_duration(&self) -> std::time::Duration;

    /// The API token this service sends with a recording, if it sends one.
    spec fn sent_api_token(&self) -> Option<Seq<char>>;

    /// How long to record the audio
    fn listen_duration(&self) -> (r: std::time::Duration)
        ensures
            r == self.recorded_duration(),
    ;
}

/// The services that can be made active.
#[derive(Debug, Clone, Copy, PartialEq, Eq, Structural)]
pub enum ProviderType {
    AudD,
    Mock,
}

impl ProviderType {
    /// The service of this type, AudD without an API token.
    pub fn to_provider(self) -> (r: Box<dyn Provider>)
        ensures
            self == ProviderType::AudD ==> r.recorded_duration() == duration_of_secs(5)
                && r.sent_api_token() == Some(Seq::<char>::empty()),
            self == ProviderType::Mock ==> r.recorded_duration() == duration_of_secs(1)
                && r.sent_api_token() is None,
    {
        if self == ProviderType::AudD {
            let b: Box<AudD> = Box::new(AudD::new(None));
            return b;
        }
        let m: Box<Mock> = Box::new(Mock);
        return m;
    }

    /// The type with the given number, in the order of declaration, as
    /// the settings store it.
    pub fn from_i32(val: i32) -> (r: Self)
        requires
            0 <= val < 2,
        ensures
            r == (if val == 0 {
                ProviderType::AudD
            } else {
                ProviderType::Mock
            }),
    {
        if val == 0 {
            ProviderType::AudD
        } else {
            ProviderType::Mock
        }
    }
}

impl Default for ProviderType {
    fn default() -> (r: Self)
        ensures
            r == ProviderType::AudD,
    {
        Self::AudD
    }
}

/// Which service is active.
#[derive(Debug)]
pub struct ProviderManager {
    active: ProviderType,
}

impl Default for ProviderManager {
    fn default() -> (r: Self)
        ensures
            r.spec_active() == ProviderType::AudD,
    {
        ProviderManager { active: ProviderType::AudD }
    }
}

impl ProviderManager {
    pub closed spec fn spec_active(self) -> ProviderType {
        self.active
    }

    pub fn active(&self) -> (r: ProviderType)
        ensures
            r == self.spec_active(),
    {
        self.active
    }

    pub fn set_active(&mut self, new_value: ProviderType)
        ensures
            final(self).spec_active() == new_value,
    {
        self.active = new_value;
    }

    /// Makes the default service active again.
    pub fn reset_active(&mut self)
        ensures
            final(self).spec_active() == ProviderType::AudD,
    {
        self.set_active(ProviderType::AudD);
    }
}

/// Why a service failed to recognize.
#[derive(Debug)]
pub enum ProviderError {
    AudD(RequestError),
    Other(String),
}

} // verus!

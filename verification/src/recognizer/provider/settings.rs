use vstd::prelude::*;
use vstd::string::StringExecFns;

use super::aud_d::{AudD, AudDMock};
use super::error_tester::ErrorTester;
use super::Provider;
use crate::time::{duration_from_secs, duration_of_secs};

verus! {

/// Which answers a test service gives.
#[derive(Debug, Clone, Copy, PartialEq, Eq, Structural)]
pub enum TestProviderMode {
    ErrorOnly,
    ValidOnly,
    Both,
}

impl Default for TestProviderMode {
    fn default() -> (r: Self)
        ensures
            r == TestProviderMode::ValidOnly,
    {
        TestProviderMode::ValidOnly
    }
}

impl TestProviderMode {
    /// The mode with the given number, in the order of declaration, as the
    /// settings store it.
    pub fn try_from_i32(val: i32) -> (r: Result<Self, String>)
        ensures
            val == 0 ==> r == Ok::<Self, String>(TestProviderMode::ErrorOnly),
            val == 1 ==> r == Ok::<Self, String>(TestProviderMode::ValidOnly),
            val == 2 ==> r == Ok::<Self, String>(TestProviderMode::Both),
            !(0 <= val < 3) ==> (r matches Err(m) && m@ == invalid_value_message(val)),
    {
        match val {
            0 => Ok(TestProviderMode::ErrorOnly),
            1 => Ok(TestProviderMode::ValidOnly),
            2 => Ok(TestProviderMode::Both),
            _ => Err(invalid_value(val)),
        }
    }
}

/// The services that can be made active.
#[derive(Debug, Clone, Copy, PartialEq, Eq, Structural)]
pub enum ProviderType {
    AudD,
    AudDMock,
    ErrorTester,
}

impl Default for ProviderType {
    fn default() -> (r: Self)
        ensures
            r == ProviderType::AudD,
    {
        ProviderType::AudD
    }
}

/// The message for a number that names no variant.
pub open spec fn invalid_value_message(val: i32) -> Seq<char> {
    "Invalid value `"@ + crate::text::signed_decimal(val as int) + "`"@
}

fn invalid_value(val: i32) -> (r: String)
    ensures
        r@ == invalid_value_message(val),
{
    let mut message = String::from_str("Invalid value `");
    crate::text::push_signed_decimal(&mut message, val);
    message.append("`");
    message
}

impl ProviderType {
    /// The type with the given number, in the order of declaration, as the
    /// settings store it.
    pub fn try_from_i32(val: i32) -> (r: Result<Self, String>)
        ensures
            val == 0 ==> r == Ok::<Self, String>(ProviderType::AudD),
            val == 1 ==> r == Ok::<Self, String>(ProviderType::AudDMock),
            val == 2 ==> r == Ok::<Self, String>(ProviderType::ErrorTester),
            !(0 <= val < 3) ==> (r matches Err(m) && m@ == invalid_value_message(val)),
    {
        match val {
            0 => Ok(ProviderType::AudD),
            1 => Ok(ProviderType::AudDMock),
            2 => Ok(ProviderType::ErrorTester),
            _ => Err(invalid_value(val)),
        }
    }

    /// The service of this type: AudD with the given API token, and the
    /// test services recording for `test_listen_duration`.
    pub fn to_provider(self, aud_d_api_token: &str, test_listen_duration: std::time::Duration) -> (r: Box<dyn Provider>)
        ensures
            self == ProviderType::AudD ==> r.recorded_duration() == duration_of_secs(5) && !r.supports_test_mode()
                && r.sent_api_token() == Some(aud_d_api_token@),
            self != ProviderType::AudD ==> r.recorded_duration() == test_listen_duration && r.supports_test_mode()
                && r.sent_api_token() is None,
    {
        if self == ProviderType::AudD {
            let provider: Box<AudD> = Box::new(AudD::new(Some(aud_d_api_token)));
            return provider;
        }
        if self == ProviderType::AudDMock {
            let provider: Box<AudDMock> = Box::new(AudDMock::new(test_listen_duration));
            return provider;
        }
        let provider: Box<ErrorTester> = Box::new(ErrorTester::new(test_listen_duration));
        return provider;
    }
}

/// The settings of the services.
#[derive(Debug, PartialEq, Eq)]
pub struct ProviderSettings {
    pub active: ProviderType,
    pub test_mode: TestProviderMode,
    pub test_listen_duration: std::time::Duration,
    pub test_recognize_duration: std::time::Duration,
}

/// The settings as they first are: AudD active, valid answers only, and
/// one second to listen and one to recognize in tests.
pub open spec fn is_default_settings(s: ProviderSettings) -> bool {
    &&& s.active == ProviderType::AudD
    &&& s.test_mode == TestProviderMode::ValidOnly
    &&& s.test_listen_duration == duration_of_secs(1)
    &&& s.test_recognize_duration == duration_of_secs(1)
}

impl ProviderSettings {
    /// Reset all fields to their defaults
    pub fn reset(&mut self)
        ensures
            is_default_settings(*final(self)),
    {
        *self = Self::default();
    }

    /// The settings as they first are.
    pub fn default() -> (r: Self)
        ensures
            is_default_settings(r),
    {
        Self {
            active: ProviderType::default(),
            test_mode: TestProviderMode::default(),
            test_listen_duration: duration_from_secs(1),
            test_recognize_duration: duration_from_secs(1),
        }
    }
}

} // verus!

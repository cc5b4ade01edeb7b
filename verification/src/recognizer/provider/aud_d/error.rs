//! What the AudD service reports when it recognizes nothing.
pub use crate::provider::aud_d::error::AudDError;

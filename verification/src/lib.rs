//! Core logic of a song identifier: response decoding, recognition
//! bookkeeping, saved recordings and history navigation.

pub mod song;
pub mod text;
pub mod json;
pub mod provider;
pub mod random;
pub mod time;
pub mod recognizer;
pub mod utils;
pub mod window;

//! Decisions of the main window and its views.
pub mod dialogs;
pub mod external_link_tile;
pub mod history_view;
pub mod recognizer_status;
pub mod song_bar;

use vstd::prelude::*;

use crate::recognizer::RecognizerState;

verus! {

/// What pressing a key does in the window.
#[derive(Debug, Clone, Copy, PartialEq, Eq, Structural)]
pub enum KeyAction {
    /// Close the search bar.
    CloseSearch,
    /// Leave selection mode.
    StopSelectionMode,
    /// Leave the key to the widgets.
    Propagate,
}

/// Decides what a key press does: Escape with no modifier, on the main page
/// of the history, closes the search, or else leaves selection mode.
pub fn key_action(
    is_escape_without_modifier: bool,
    is_on_navigation_main_page: bool,
    is_search_mode: bool,
    is_selection_mode_active: bool,
) -> (r: KeyAction)
    ensures
        r == if is_escape_without_modifier && is_on_navigation_main_page && is_search_mode {
            KeyAction::CloseSearch
        } else if is_escape_without_modifier && is_on_navigation_main_page && is_selection_mode_active {
            KeyAction::StopSelectionMode
        } else {
            KeyAction::Propagate
        },
{
    if is_escape_without_modifier && is_on_navigation_main_page {
        if is_search_mode {
            return KeyAction::CloseSearch;
        }
        if is_selection_mode_active {
            return KeyAction::StopSelectionMode;
        }
    }
    KeyAction::Propagate
}

/// Whether the window shows the recognizer's view rather than the
/// history: while a recognition runs.
pub fn shows_recognizer_view(state: RecognizerState) -> (r: bool)
    ensures
        r == (state != RecognizerState::Null),
{
    match state {
        RecognizerState::Listening | RecognizerState::Recognizing => true,
        RecognizerState::Null => false,
    }
}

} // verus!

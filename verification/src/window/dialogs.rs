//! What the window's message dialogs say and offer when a recognition
//! fails or its recording is saved for later.
use vstd::prelude::*;

use crate::recognizer::provider::error::{kind_is_permanent, spec_title_msgid, title_msgid, RecognizeErrorKind};

verus! {

/// What a response of a dialog does when chosen.
#[derive(Debug, Clone, Copy, PartialEq, Eq, Structural)]
pub enum DialogAction {
    /// Open the page for a new issue in the bug tracker.
    OpenIssue,
    /// Start a new recognition.
    TryAgain,
    /// Open the preferences with the AudD API token row focused.
    OpenPreferences,
}

/// A message dialog: untranslated heading and body, the responses as
/// identifier and untranslated label in order, the response shown as
/// suggested, the default response, and the response that does something
/// with what it does.
pub struct DialogPlan {
    pub heading: &'static str,
    pub body: &'static str,
    pub responses: Vec<(&'static str, &'static str)>,
    pub suggested: Option<&'static str>,
    pub default_response: &'static str,
    pub action: Option<(&'static str, DialogAction)>,
}

/// The texts of a dialog, taken as character sequences.
pub struct DialogView {
    pub heading: Seq<char>,
    pub body: Seq<char>,
    pub responses: Seq<(Seq<char>, Seq<char>)>,
    pub suggested: Option<Seq<char>>,
    pub default_response: Seq<char>,
    pub action: Option<(Seq<char>, DialogAction)>,
}

impl View for DialogPlan {
    type V = DialogView;

    open spec fn view(&self) -> DialogView {
        DialogView {
            heading: self.heading@,
            body: self.body@,
            responses: self.responses@.map_values(|r: (&'static str, &'static str)| (r.0@, r.1@)),
            suggested: match self.suggested {
                Some(s) => Some(s@),
                None => None,
            },
            default_response: self.default_response@,
            action: match self.action {
                Some((id, a)) => Some((id@, a)),
                None => None,
            },
        }
    }
}

/// The page on which a new issue is reported.
pub open spec fn issue_uri() -> Seq<char> {
    "https://github.com/SeaDve/Mousai/issues/new?assignees=&labels=&template=bug_report.md"@
}

/// The page on which a new issue is reported.
pub fn new_issue_uri() -> (r: &'static str)
    ensures
        r@ == issue_uri(),
{
    "https://github.com/SeaDve/Mousai/issues/new?assignees=&labels=&template=bug_report.md"
}

/// The dialog for a recognition that failed permanently with an error of
/// `kind`.
pub open spec fn error_dialog(kind: RecognizeErrorKind) -> DialogView {
    if kind == RecognizeErrorKind::NoMatches {
        DialogView {
            heading: spec_title_msgid(kind),
            body: "Try moving closer to the source or using a different excerpt of the song"@,
            responses: seq![("no"@, "No, Thanks"@), ("try-again"@, "Try Again"@)],
            suggested: Some("try-again"@),
            default_response: "try-again"@,
            action: Some(("try-again"@, DialogAction::TryAgain)),
        }
    } else {
        DialogView {
            heading: spec_title_msgid(kind),
            body: "Please open an issue on GitHub and provide the necessary information"@,
            responses: seq![("no"@, "No, Thanks"@), ("open"@, "Open an Issue"@)],
            suggested: Some("open"@),
            default_response: "open"@,
            action: Some(("open"@, DialogAction::OpenIssue)),
        }
    }
}

/// The dialog for a recording saved because of a failure of `kind`.
pub open spec fn saved_dialog(kind: RecognizeErrorKind) -> DialogView {
    if kind == RecognizeErrorKind::Connection {
        DialogView {
            heading: "Recording Saved"@,
            body: "The result will be available when you're back online"@,
            responses: seq![("ok"@, "Ok, Got It"@)],
            suggested: None,
            default_response: "ok"@,
            action: None,
        }
    } else if kind == RecognizeErrorKind::TokenLimitReached {
        DialogView {
            heading: "Recording Saved"@,
            body: "The result will be available when your token limit is reset. Wait until the limit is reset or open preferences and try setting a different token"@,
            responses: seq![("no"@, "I'll Wait"@), ("open"@, "Open Preferences"@)],
            suggested: Some("open"@),
            default_response: "open"@,
            action: Some(("open"@, DialogAction::OpenPreferences)),
        }
    } else {
        DialogView {
            heading: "Recording Saved"@,
            body: "The result will be available when your token is replaced with a valid one. Open preferences and try setting a different token"@,
            responses: seq![("no"@, "Later"@), ("open"@, "Open Preferences"@)],
            suggested: Some("open"@),
            default_response: "open"@,
            action: Some(("open"@, DialogAction::OpenPreferences)),
        }
    }
}

/// The dialog presented for a recognition that failed permanently.
pub fn present_recognize_error(kind: RecognizeErrorKind) -> (r: DialogPlan)
    requires
        kind_is_permanent(kind),
    ensures
        r@ == error_dialog(kind),
{
    let mut responses = Vec::new();
    let r = match kind {
        RecognizeErrorKind::NoMatches => {
            responses.push(("no", "No, Thanks"));
            responses.push(("try-again", "Try Again"));
            DialogPlan {
                heading: title_msgid(kind),
                body: "Try moving closer to the source or using a different excerpt of the song",
                responses,
                suggested: Some("try-again"),
                default_response: "try-again",
                action: Some(("try-again", DialogAction::TryAgain)),
            }
        },
        _ => {
            responses.push(("no", "No, Thanks"));
            responses.push(("open", "Open an Issue"));
            DialogPlan {
                heading: title_msgid(kind),
                body: "Please open an issue on GitHub and provide the necessary information",
                responses,
                suggested: Some("open"),
                default_response: "open",
                action: Some(("open", DialogAction::OpenIssue)),
            }
        },
    };
    assert(r@.responses =~= error_dialog(kind).responses);
    r
}

/// The dialog presented for a recording saved because of a failure that
/// may go away.
pub fn present_recording_saved_message(kind: RecognizeErrorKind) -> (r: DialogPlan)
    requires
        !kind_is_permanent(kind),
    ensures
        r@ == saved_dialog(kind),
{
    let mut responses = Vec::new();
    let r = match kind {
        RecognizeErrorKind::Connection => {
            responses.push(("ok", "Ok, Got It"));
            DialogPlan {
                heading: "Recording Saved",
                body: "The result will be available when you're back online",
                responses,
                suggested: None,
                default_response: "ok",
                action: None,
            }
        },
        RecognizeErrorKind::TokenLimitReached => {
            responses.push(("no", "I'll Wait"));
            responses.push(("open", "Open Preferences"));
            DialogPlan {
                heading: "Recording Saved",
                body: "The result will be available when your token limit is reset. Wait until the limit is reset or open preferences and try setting a different token",
                responses,
                suggested: Some("open"),
                default_response: "open",
                action: Some(("open", DialogAction::OpenPreferences)),
            }
        },
        _ => {
            responses.push(("no", "Later"));
            responses.push(("open", "Open Preferences"));
            DialogPlan {
                heading: "Recording Saved",
                body: "The result will be available when your token is replaced with a valid one. Open preferences and try setting a different token",
                responses,
                suggested: Some("open"),
                default_response: "open",
                action: Some(("open", DialogAction::OpenPreferences)),
            }
        },
    };
    assert(r@.responses =~= saved_dialog(kind).responses);
    r
}

} // verus!

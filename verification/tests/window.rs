use mousai::recognizer::provider::{RecognizeError, RecognizeErrorKind};
use mousai::recognizer::recording::Recording;
use mousai::recognizer::recordings::Recordings;
use mousai::song::{Song, Uid};
use mousai::window::dialogs::{new_issue_uri, present_recognize_error, present_recording_saved_message, DialogAction};
use mousai::window::recognizer_status::{
    saved_recording_counts, status_button_page, status_progress, SavedRecordingCounts, StatusButtonPage,
};
use mousai::window::song_bar::{format_clock_time_minute_sec, format_minute_sec};

#[test]
fn test_format_clock_time_minute_sec() {
    fn test(clock_time: u64, string: &str) {
        assert_eq!(format_clock_time_minute_sec(clock_time), string);
    }

    const SECOND: u64 = 1_000_000_000;

    test(0, "0∶00");
    test(31 * SECOND, "0∶31");
    test((59 * 60 + 59) * SECOND, "59∶59");

    test(60 * 60 * SECOND, "60∶00");
    test((100 * 60 + 20) * SECOND, "100∶20");
    test(u64::MAX - 1, "307445734∶33");
}

#[test]
fn minute_sec_of_seconds() {
    assert_eq!(format_minute_sec(0), "0∶00");
    assert_eq!(format_minute_sec(9), "0∶09");
    assert_eq!(format_minute_sec(61), "1∶01");
    assert_eq!(format_clock_time_minute_sec(1_999_999_999), "0∶01");
}

#[test]
fn error_dialogs() {
    let dialog = present_recognize_error(RecognizeErrorKind::NoMatches);
    assert_eq!(dialog.heading, "No Matches Found");
    assert_eq!(dialog.responses, vec![("no", "No, Thanks"), ("try-again", "Try Again")]);
    assert_eq!(dialog.default_response, "try-again");
    assert_eq!(dialog.action, Some(("try-again", DialogAction::TryAgain)));

    let dialog = present_recognize_error(RecognizeErrorKind::Fingerprint);
    assert_eq!(dialog.heading, "Cannot Create Fingerprint From Audio");
    assert_eq!(dialog.body, "Please open an issue on GitHub and provide the necessary information");
    assert_eq!(dialog.suggested, Some("open"));
    assert_eq!(dialog.action, Some(("open", DialogAction::OpenIssue)));
    assert!(new_issue_uri().starts_with("https://github.com/SeaDve/Mousai/issues/new"));
}

#[test]
fn saved_dialogs() {
    let dialog = present_recording_saved_message(RecognizeErrorKind::Connection);
    assert_eq!(dialog.heading, "Recording Saved");
    assert_eq!(dialog.responses, vec![("ok", "Ok, Got It")]);
    assert_eq!(dialog.action, None);

    let dialog = present_recording_saved_message(RecognizeErrorKind::TokenLimitReached);
    assert_eq!(dialog.responses, vec![("no", "I'll Wait"), ("open", "Open Preferences")]);
    assert_eq!(dialog.action, Some(("open", DialogAction::OpenPreferences)));

    let dialog = present_recording_saved_message(RecognizeErrorKind::InvalidToken);
    assert_eq!(dialog.responses, vec![("no", "Later"), ("open", "Open Preferences")]);
}

fn song() -> Song {
    Song::new(Uid::from_prefixed("Test", "1"), "T".to_string(), "A".to_string(), "B".to_string())
}

#[test]
fn status_counts_and_pages() {
    let mut recordings = Recordings::new();
    recordings.insert(Recording::new("1", vec![1], 0));
    recordings.insert(Recording::new("2", vec![2], 0));
    recordings.insert(Recording::new("3", vec![3], 0));
    recordings.set_recognize_result("1", Some(Ok(song())));
    recordings.set_recognize_result("2", Some(Err(RecognizeError::new(RecognizeErrorKind::NoMatches, None))));

    let counts = saved_recording_counts(&recordings);
    assert_eq!(counts, SavedRecordingCounts { total: 3, n_recognized: 2, n_successful: 1 });

    assert_eq!(
        status_button_page(false, counts),
        StatusButtonPage::Recognizing { n_recognizing: 1, n_recognized: 2, total: 3 }
    );
    assert_eq!(status_button_page(true, counts), StatusButtonPage::NewSongs { n_successful: 1 });

    let none = SavedRecordingCounts { total: 0, n_recognized: 0, n_successful: 0 };
    assert_eq!(status_button_page(true, none), StatusButtonPage::Offline);
    assert_eq!(status_button_page(false, none), StatusButtonPage::Hidden);

    let progress = status_progress(counts);
    assert_eq!(progress.n_successful, 1);
    assert_eq!(progress.n_not_failed, 2);
    assert!(progress.has_unfinished);
    assert!(progress.has_results);
}

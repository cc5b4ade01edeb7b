//! What the recognizer's status widgets show of the saved recordings.
use vstd::prelude::*;

use crate::recognizer::recording::{is_ready_to_take, is_recording_ready_to_take, Recording};
use crate::recognizer::recordings::Recordings;

verus! {

/// Whether the recording has been recognized as a song.
pub open spec fn is_successful(recording: Recording) -> bool {
    recording.spec_recognize_result() matches Some(Ok(_))
}

/// How many entries hold a recording ready to be taken.
pub open spec fn count_ready(e: Seq<(Seq<char>, Recording)>) -> nat
    decreases e.len(),
{
    if e.len() == 0 {
        0
    } else {
        count_ready(e.drop_last()) + if is_ready_to_take(e.last().1) {
            1nat
        } else {
            0nat
        }
    }
}

/// How many entries hold a recording recognized as a song.
pub open spec fn count_successful(e: Seq<(Seq<char>, Recording)>) -> nat
    decreases e.len(),
{
    if e.len() == 0 {
        0
    } else {
        count_successful(e.drop_last()) + if is_successful(e.last().1) {
            1nat
        } else {
            0nat
        }
    }
}

/// Every successful recording is ready, and every ready one is saved.
pub proof fn lemma_count_order(e: Seq<(Seq<char>, Recording)>)
    ensures
        count_successful(e) <= count_ready(e) <= e.len(),
    decreases e.len(),
{
    if e.len() > 0 {
        lemma_count_order(e.drop_last());
    }
}

/// The saved recordings counted: all of them, those whose result is final,
/// and those recognized as a song.
#[derive(Debug, Clone, Copy, PartialEq, Eq, Structural)]
pub struct SavedRecordingCounts {
    pub total: usize,
    pub n_recognized: usize,
    pub n_successful: usize,
}

/// Counts the saved recordings.
pub fn saved_recording_counts(saved_recordings: &Recordings) -> (r: SavedRecordingCounts)
    ensures
        r.total == saved_recordings@.len(),
        r.n_recognized == count_ready(saved_recordings@),
        r.n_successful == count_successful(saved_recordings@),
        r.n_successful <= r.n_recognized <= r.total,
{
    let total = saved_recordings.n_items();
    let mut n_recognized: usize = 0;
    let mut n_successful: usize = 0;
    let mut i: usize = 0;
    while i < total
        invariant
            total == saved_recordings@.len(),
            i <= total,
            n_recognized == count_ready(saved_recordings@.take(i as int)),
            n_successful == count_successful(saved_recordings@.take(i as int)),
            n_successful <= n_recognized <= i,
        decreases total - i,
    {
        let ghost e = saved_recordings@;
        proof {
            assert(e.take(i + 1).drop_last() =~= e.take(i as int));
            lemma_count_order(e.take(i as int));
        }
        match saved_recordings.item(i) {
            Some(recording) => {
                if is_recording_ready_to_take(recording) {
                    n_recognized = n_recognized + 1;
                }
                if let Some(Ok(_)) = recording.recognize_result() {
                    n_successful = n_successful + 1;
                }
            },
            None => {},
        }
        i = i + 1;
    }
    proof {
        assert(saved_recordings@.take(total as int) =~= saved_recordings@);
    }
    SavedRecordingCounts { total, n_recognized, n_successful }
}

/// What the status button shows.
#[derive(Debug, Clone, Copy, PartialEq, Eq, Structural)]
pub enum StatusButtonPage {
    /// Some saved recordings are still being recognized: how many, and how
    /// many of the total are done.
    Recognizing { n_recognizing: usize, n_recognized: usize, total: usize },
    /// Songs were recognized from saved recordings: how many.
    NewSongs { n_successful: usize },
    /// The network is not there.
    Offline,
    /// Nothing to show.
    Hidden,
}

/// The page of the status button for the given counts.
pub open spec fn status_button_page_of(is_offline_mode: bool, counts: SavedRecordingCounts) -> StatusButtonPage {
    if !is_offline_mode && counts.total != counts.n_recognized {
        StatusButtonPage::Recognizing {
            n_recognizing: (counts.total - counts.n_recognized) as usize,
            n_recognized: counts.n_recognized,
            total: counts.total,
        }
    } else if counts.n_successful != 0 {
        StatusButtonPage::NewSongs { n_successful: counts.n_successful }
    } else if is_offline_mode {
        StatusButtonPage::Offline
    } else {
        StatusButtonPage::Hidden
    }
}

/// Decides what the status button shows.
pub fn status_button_page(is_offline_mode: bool, counts: SavedRecordingCounts) -> (r: StatusButtonPage)
    requires
        counts.n_recognized <= counts.total,
    ensures
        r == status_button_page_of(is_offline_mode, counts),
{
    if !is_offline_mode && counts.total != counts.n_recognized {
        let n_recognizing = counts.total - counts.n_recognized;
        StatusButtonPage::Recognizing { n_recognizing, n_recognized: counts.n_recognized, total: counts.total }
    } else if counts.n_successful != 0 {
        StatusButtonPage::NewSongs { n_successful: counts.n_successful }
    } else if is_offline_mode {
        StatusButtonPage::Offline
    } else {
        StatusButtonPage::Hidden
    }
}

/// What the status view shows of the saved recordings: how many were
/// recognized as songs out of those not failed, whether some are still
/// being recognized, and whether there are results to show.
#[derive(Debug, Clone, Copy, PartialEq, Eq, Structural)]
pub struct StatusProgress {
    pub n_successful: usize,
    pub n_not_failed: usize,
    pub has_unfinished: bool,
    pub has_results: bool,
}

/// Decides what the status view shows for the given counts.
pub fn status_progress(counts: SavedRecordingCounts) -> (r: StatusProgress)
    requires
        counts.n_successful <= counts.n_recognized <= counts.total,
    ensures
        r.n_successful == counts.n_successful,
        r.n_not_failed == counts.total - (counts.n_recognized - counts.n_successful),
        r.has_unfinished == (counts.total != counts.n_recognized),
        r.has_results == (counts.n_successful != 0),
{
    let n_failed = counts.n_recognized - counts.n_successful;
    StatusProgress {
        n_successful: counts.n_successful,
        n_not_failed: counts.total - n_failed,
        has_unfinished: counts.total != counts.n_recognized,
        has_results: counts.n_successful != 0,
    }
}

} // verus!
